//! The database-aware debug formatter that `derive(DebugWithDb)` writes for
//! a struct or an enum.
//!
//! The formatter is written as source text. A type is described by the
//! text of its parts (its name, its generic parameters, the names and
//! types of its fields), which are spliced into the text as they are; what
//! comes out is stated character for character. A name that is written
//! between quote marks has to be [plain](plain_name).
//!
//! The formatter visits the fields in the order of their declaration and
//! formats each through `SalsaDebug`, which uses the database-aware
//! formatter of the field's type where it has one and its ordinary one
//! where it has none.

use vstd::prelude::*;
use vstd::string::{StrSliceExecFns, StringExecFns};

verus! {

/// The database type in the header of the impl and of `fmt`.
pub const DB_TYPE: &'static str = "<crate::Jar as ::salsa::jar::Jar<'db>>::DynDb";

/// The database type where a field is formatted.
pub const FIELD_DB_TYPE: &'static str = "<crate::Jar as salsa::jar::Jar<'db>>::DynDb";

/// The lifetime of the database, which the impl declares first.
pub const DB_LIFETIME: &'static str = "'db";

/// From the end of the impl's header to the body of `fmt`, up to the
/// database type.
pub const FMT_OPEN: &'static str = " { fn fmt(&self, f: &mut ::std::fmt::Formatter<'_>, _db: & ";

/// From the database type in the header of `fmt` to the start of its body.
pub const FMT_BODY: &'static str =
    " , _include_all_fields: bool) -> ::std::fmt::Result { #[allow(unused_imports)] use ::salsa::debug::helper::Fallback; ";

/// From the getter of a field to the end of the statement that formats
/// the field.
pub const FIELD_CLOSE: &'static str = " , _db, _include_all_fields ) ); ";

/// One field of a struct or of a variant.
#[derive(Debug)]
pub struct Field {
    /// The name, if the field has one.
    pub ident: Option<String>,
    /// The type, as source text.
    pub ty: String,
}

/// The fields of a struct or of a variant.
#[derive(Debug)]
pub enum Fields {
    /// Fields in braces, as in `Point { x: u32, y: u32 }`.
    Named(Vec<Field>),
    /// Fields in parentheses, as in `Some(T)`.
    Unnamed(Vec<Field>),
    /// No fields, as in `None`.
    Unit,
}

/// One generic parameter of a type, as source text.
#[derive(Debug, PartialEq, Eq)]
pub enum GenericParam {
    /// A lifetime with its bounds, as in `'a: 'b`.
    Lifetime(String),
    /// A type parameter.
    Type {
        /// The name, after its attributes if it has any.
        head: String,
        /// The bounds, one text for each.
        bounds: Vec<String>,
        /// The default, if the parameter has one.
        default: Option<String>,
    },
    /// A const parameter, as in `const N: usize`.
    Const(String),
}

/// The mathematical content of a [`GenericParam`].
pub enum GenericParamView {
    Lifetime(Seq<char>),
    Type { head: Seq<char>, bounds: Seq<Seq<char>>, default: Option<Seq<char>> },
    Const(Seq<char>),
}

impl View for GenericParam {
    type V = GenericParamView;

    open spec fn view(&self) -> GenericParamView {
        match self {
            GenericParam::Lifetime(text) => GenericParamView::Lifetime(text@),
            GenericParam::Type { head, bounds, default } => GenericParamView::Type {
                head: head@,
                bounds: texts_view(bounds@),
                default: match default {
                    Some(text) => Some(text@),
                    None => None,
                },
            },
            GenericParam::Const(text) => GenericParamView::Const(text@),
        }
    }
}

/// The content of each of `texts`.
pub open spec fn texts_view(texts: Seq<String>) -> Seq<Seq<char>> {
    texts.map_values(|text: String| text@)
}

/// The content of each of `params`.
pub open spec fn params_view(params: Seq<GenericParam>) -> Seq<GenericParamView> {
    params.map_values(|param: GenericParam| param@)
}

/// A struct.
#[derive(Debug)]
pub struct ItemStruct {
    pub ident: String,
    /// The generic parameters, in the order of their declaration.
    pub generics: Vec<GenericParam>,
    pub fields: Fields,
}

/// One variant of an enum.
#[derive(Debug)]
pub struct Variant {
    pub ident: String,
    pub fields: Fields,
}

/// An enum.
#[derive(Debug)]
pub struct ItemEnum {
    pub ident: String,
    /// The generic parameters, in the order of their declaration.
    pub generics: Vec<GenericParam>,
    pub variants: Vec<Variant>,
}

/// What the derive was put on.
#[derive(Debug)]
pub enum Item {
    Struct(ItemStruct),
    Enum(ItemEnum),
    /// Anything but a struct or an enum.
    Other,
}

/// Why the derive wrote nothing.
#[derive(Clone, Copy, Debug, PartialEq, Eq, Structural)]
pub enum DeriveError {
    /// The derive was put on something that is neither a struct nor an
    /// enum.
    UnsupportedItem,
    /// A name that the formatter has to write between quote marks is not
    /// [plain](plain_name).
    UnquotableName,
}

/// Whether `c` stands for itself between quote marks: every character
/// does but the quote mark, the backslash and the carriage return.
pub open spec fn plain_char(c: char) -> bool {
    c != '"' && c != '\\' && c != '\r'
}

/// Whether `name` can be written between quote marks as it is. Every
/// identifier can.
pub open spec fn plain_name(name: Seq<char>) -> bool {
    forall|i: int| 0 <= i < name.len() ==> plain_char(#[trigger] name[i])
}

/// Whether the name of `field`, if it has one, is plain.
pub open spec fn plain_field(field: Field) -> bool {
    field.ident matches Some(ident) ==> plain_name(ident@)
}

/// Whether the names of all of `fields` are plain.
pub open spec fn plain_fields(fields: Fields) -> bool {
    match fields {
        Fields::Unit => true,
        Fields::Named(named) => forall|i: int| 0 <= i < named@.len() ==> plain_field(#[trigger] named@[i]),
        Fields::Unnamed(unnamed) => forall|i: int|
            0 <= i < unnamed@.len() ==> plain_field(#[trigger] unnamed@[i]),
    }
}

/// Whether the name of the struct and the names of its fields are plain.
pub open spec fn plain_struct(item: ItemStruct) -> bool {
    plain_name(item.ident@) && plain_fields(item.fields)
}

/// Whether the name of the variant and the names of its fields are plain.
pub open spec fn plain_variant(variant: Variant) -> bool {
    plain_name(variant.ident@) && plain_fields(variant.fields)
}

/// Whether the names of all variants and of their fields are plain.
pub open spec fn plain_enum(item: ItemEnum) -> bool {
    forall|i: int| 0 <= i < item.variants@.len() ==> plain_variant(#[trigger] item.variants@[i])
}

/// Where the formatter finds the value of a field.
#[derive(Clone, Copy, Debug, PartialEq, Eq, Structural)]
pub enum Accessor {
    /// In `self`, under the name of the field or, where it has none, under
    /// its position.
    OwnField,
    /// In a variable that a pattern has bound under the name of the field.
    BoundByName,
    /// In the variable `x0`, `x1`, ... that a pattern has bound at the
    /// position of the field.
    BoundByPosition,
}

/// The digit `d` as text.
pub open spec fn digit_text(d: nat) -> Seq<char> {
    if d == 0 {
        "0"@
    } else if d == 1 {
        "1"@
    } else if d == 2 {
        "2"@
    } else if d == 3 {
        "3"@
    } else if d == 4 {
        "4"@
    } else if d == 5 {
        "5"@
    } else if d == 6 {
        "6"@
    } else if d == 7 {
        "7"@
    } else if d == 8 {
        "8"@
    } else {
        "9"@
    }
}

/// The number `n` in decimal, without leading zeros.
pub open spec fn decimal_text(n: nat) -> Seq<char>
    decreases n,
{
    if n < 10 {
        digit_text(n)
    } else {
        decimal_text(n / 10) + digit_text(n % 10)
    }
}

/// The expression that stands for the value of `field`, the field at
/// position `index`.
pub open spec fn getter_text(accessor: Accessor, index: nat, field: Field) -> Seq<char> {
    match accessor {
        Accessor::OwnField => match field.ident {
            Some(ident) => "self . "@ + ident@,
            None => "self . "@ + decimal_text(index),
        },
        Accessor::BoundByName => match field.ident {
            Some(ident) => ident@,
            None => Seq::empty(),
        },
        Accessor::BoundByPosition => "x"@ + decimal_text(index),
    }
}

/// The argument that gives the builder the name of `field`: the name as a
/// string literal and a comma, or nothing for a field without name.
pub open spec fn field_name_arg_text(field: Field) -> Seq<char> {
    match field.ident {
        Some(ident) => "\""@ + ident@ + "\", "@,
        None => Seq::empty(),
    }
}

/// The statement that hands `field`, the field at position `index`, to the
/// builder.
pub open spec fn field_debug_text(accessor: Accessor, index: nat, field: Field) -> Seq<char> {
    "debug_struct = debug_struct.field( "@ + field_name_arg_text(field)
        + "&::salsa::debug::helper::SalsaDebug::< "@ + field.ty@ + " , "@ + FIELD_DB_TYPE@
        + " >::salsa_debug( #[allow(clippy::needless_borrow)] & "@ + getter_text(accessor, index, field)
        + FIELD_CLOSE@
}

/// The statements for the first `count` of `fields`, in the order of
/// their declaration.
pub open spec fn fields_debug_text(accessor: Accessor, fields: Seq<Field>, count: nat) -> Seq<char>
    decreases count,
{
    if count == 0 {
        Seq::empty()
    } else {
        fields_debug_text(accessor, fields, (count - 1) as nat) + field_debug_text(
            accessor,
            (count - 1) as nat,
            fields[count - 1],
        )
    }
}

/// The body that formats `fields` under the name `name`: a struct builder
/// for named fields, a tuple builder for unnamed ones, and, where there
/// are no fields, a tuple builder that is finished at once. In each case
/// the body ends in the result of the builder.
pub open spec fn debug_fields_text(name: Seq<char>, accessor: Accessor, fields: Fields) -> Seq<char> {
    match fields {
        Fields::Unit => "f.debug_tuple( \""@ + name + "\" ).finish()"@,
        Fields::Named(named) => "let mut debug_struct = &mut f.debug_struct( \""@ + name + "\" ); "@
            + fields_debug_text(accessor, named@, named@.len()) + "debug_struct.finish()"@,
        Fields::Unnamed(unnamed) => "let mut debug_struct = &mut f.debug_tuple( \""@ + name + "\" ); "@
            + fields_debug_text(accessor, unnamed@, unnamed@.len()) + "debug_struct.finish()"@,
    }
}

/// The bound that makes a type parameter formattable.
pub open spec fn debug_bound_text() -> Seq<char> {
    "::salsa::DebugWithDb<"@ + DB_TYPE@ + ">"@
}

/// `param` as the impl declares it: a type parameter has the bound that
/// makes it formattable after the bounds it was declared with; a lifetime
/// or a const parameter is as it was declared.
pub open spec fn with_debug_bound(param: GenericParamView) -> GenericParamView {
    match param {
        GenericParamView::Type { head, bounds, default } => GenericParamView::Type {
            head,
            bounds: bounds.push(debug_bound_text()),
            default,
        },
        other => other,
    }
}

/// The generic parameters of the impl for a type that declares `params`:
/// the lifetime of the database first, then the declared parameters in
/// their order, each [with the bound](with_debug_bound) if it is a type.
pub open spec fn with_debug(params: Seq<GenericParamView>) -> Seq<GenericParamView> {
    seq![GenericParamView::Lifetime(DB_LIFETIME@)] + params.map_values(
        |param: GenericParamView| with_debug_bound(param),
    )
}

/// The first `count` of `bounds`, after a colon and with a plus between
/// them.
pub open spec fn bounds_text(bounds: Seq<Seq<char>>, count: nat) -> Seq<char>
    decreases count,
{
    if count == 0 {
        Seq::empty()
    } else if count == 1 {
        " : "@ + bounds[0]
    } else {
        bounds_text(bounds, (count - 1) as nat) + " + "@ + bounds[count - 1]
    }
}

/// One generic parameter.
pub open spec fn param_text(param: GenericParamView) -> Seq<char> {
    match param {
        GenericParamView::Lifetime(text) => text,
        GenericParamView::Type { head, bounds, default } => head + bounds_text(bounds, bounds.len()) + (
        match default {
            Some(text) => " = "@ + text,
            None => Seq::empty(),
        }),
        GenericParamView::Const(text) => text,
    }
}

/// The first `count` of `params`, with a comma between them.
pub open spec fn params_text(params: Seq<GenericParamView>, count: nat) -> Seq<char>
    decreases count,
{
    if count == 0 {
        Seq::empty()
    } else if count == 1 {
        param_text(params[0])
    } else {
        params_text(params, (count - 1) as nat) + " , "@ + param_text(params[count - 1])
    }
}

/// The generics of a type or of an impl: the parameters between angle
/// brackets, or nothing where there is no parameter.
pub open spec fn generics_text(params: Seq<GenericParamView>) -> Seq<char> {
    if params.len() == 0 {
        Seq::empty()
    } else {
        "< "@ + params_text(params, params.len()) + " >"@
    }
}

/// The impl around the body `body` of `fmt`, for the type `ident`.
pub open spec fn impl_text(
    generics_with_debug: Seq<char>,
    ident: Seq<char>,
    generics: Seq<char>,
    body: Seq<char>,
) -> Seq<char> {
    "impl "@ + generics_with_debug + " ::salsa::DebugWithDb< "@ + DB_TYPE@ + " > for "@ + ident + " "@
        + generics + FMT_OPEN@ + DB_TYPE@ + FMT_BODY@ + body + " } }"@
}

/// The impl for a struct.
pub open spec fn struct_impl_text(item: ItemStruct) -> Seq<char> {
    impl_text(
        generics_text(with_debug(params_view(item.generics@))),
        item.ident@,
        generics_text(params_view(item.generics@)),
        debug_fields_text(item.ident@, Accessor::OwnField, item.fields),
    )
}

/// The names that the pattern of a variant binds, for the first `count` of
/// its named `fields`: each name with a comma.
pub open spec fn named_patterns_text(fields: Seq<Field>, count: nat) -> Seq<char>
    decreases count,
{
    if count == 0 {
        Seq::empty()
    } else {
        named_patterns_text(fields, (count - 1) as nat) + getter_text(
            Accessor::BoundByName,
            (count - 1) as nat,
            fields[count - 1],
        ) + " , "@
    }
}

/// The names that the pattern of a variant binds, for its first `count`
/// unnamed fields: `x0`, `x1`, ..., each with a comma.
pub open spec fn unnamed_patterns_text(count: nat) -> Seq<char>
    decreases count,
{
    if count == 0 {
        Seq::empty()
    } else {
        unnamed_patterns_text((count - 1) as nat) + "x"@ + decimal_text((count - 1) as nat) + " , "@
    }
}

/// The match arm for `variant`. A variant without fields is formatted by a
/// tuple builder that is given nothing.
pub open spec fn variant_text(variant: Variant) -> Seq<char> {
    match variant.fields {
        Fields::Unit => "Self:: "@ + variant.ident@ + " => f.debug_tuple( \""@ + variant.ident@
            + "\" ).finish(), "@,
        Fields::Named(named) => "Self:: "@ + variant.ident@ + " { "@ + named_patterns_text(
            named@,
            named@.len(),
        ) + "} => { "@ + debug_fields_text(variant.ident@, Accessor::BoundByName, variant.fields)
            + " }, "@,
        Fields::Unnamed(unnamed) => "Self:: "@ + variant.ident@ + " ( "@ + unnamed_patterns_text(
            unnamed@.len(),
        ) + ") => { "@ + debug_fields_text(variant.ident@, Accessor::BoundByPosition, variant.fields)
            + " }, "@,
    }
}

/// The match arms for the first `count` of `variants`, in the order of
/// their declaration.
pub open spec fn variants_text(variants: Seq<Variant>, count: nat) -> Seq<char>
    decreases count,
{
    if count == 0 {
        Seq::empty()
    } else {
        variants_text(variants, (count - 1) as nat) + variant_text(variants[count - 1])
    }
}

/// The impl for an enum.
pub open spec fn enum_impl_text(item: ItemEnum) -> Seq<char> {
    impl_text(
        generics_text(with_debug(params_view(item.generics@))),
        item.ident@,
        generics_text(params_view(item.generics@)),
        "match self { "@ + variants_text(item.variants@, item.variants@.len()) + " }"@,
    )
}

/// What the derive writes for `item`.
pub open spec fn derived_text(item: Item) -> Result<Seq<char>, DeriveError> {
    match item {
        Item::Struct(item) => if plain_struct(item) {
            Ok(struct_impl_text(item))
        } else {
            Err(DeriveError::UnquotableName)
        },
        Item::Enum(item) => if plain_enum(item) {
            Ok(enum_impl_text(item))
        } else {
            Err(DeriveError::UnquotableName)
        },
        Item::Other => Err(DeriveError::UnsupportedItem),
    }
}

fn digit(d: usize) -> (text: &'static str)
    requires
        d < 10,
    ensures
        text@ == digit_text(d as nat),
{
    if d == 0 {
        "0"
    } else if d == 1 {
        "1"
    } else if d == 2 {
        "2"
    } else if d == 3 {
        "3"
    } else if d == 4 {
        "4"
    } else if d == 5 {
        "5"
    } else if d == 6 {
        "6"
    } else if d == 7 {
        "7"
    } else if d == 8 {
        "8"
    } else {
        "9"
    }
}

fn append_decimal(text: &mut String, n: usize)
    ensures
        final(text)@ == old(text)@ + decimal_text(n as nat),
    decreases n,
{
    if n >= 10 {
        append_decimal(text, n / 10);
    }
    text.append(digit(n % 10));
}

fn append_getter(text: &mut String, accessor: Accessor, index: usize, field: &Field)
    ensures
        final(text)@ == old(text)@ + getter_text(accessor, index as nat, *field),
{
    match accessor {
        Accessor::OwnField => {
            text.append("self . ");
            match &field.ident {
                Some(ident) => text.append(ident.as_str()),
                None => append_decimal(text, index),
            }
        },
        Accessor::BoundByName => {
            match &field.ident {
                Some(ident) => text.append(ident.as_str()),
                None => {},
            }
        },
        Accessor::BoundByPosition => {
            text.append("x");
            append_decimal(text, index);
        },
    }
}

fn append_field_debug(text: &mut String, accessor: Accessor, index: usize, field: &Field)
    ensures
        final(text)@ == old(text)@ + field_debug_text(accessor, index as nat, *field),
{
    text.append("debug_struct = debug_struct.field( ");
    match &field.ident {
        Some(ident) => {
            text.append("\"");
            text.append(ident.as_str());
            text.append("\", ");
        },
        None => {},
    }
    text.append("&::salsa::debug::helper::SalsaDebug::< ");
    text.append(field.ty.as_str());
    text.append(" , ");
    text.append(FIELD_DB_TYPE);
    text.append(" >::salsa_debug( #[allow(clippy::needless_borrow)] & ");
    append_getter(text, accessor, index, field);
    text.append(FIELD_CLOSE);
}

fn make_fields_debug(text: &mut String, accessor: Accessor, fields: &Vec<Field>)
    ensures
        final(text)@ == old(text)@ + fields_debug_text(accessor, fields@, fields@.len()),
{
    let mut index: usize = 0;
    while index < fields.len()
        invariant
            index <= fields.len(),
            text@ == old(text)@ + fields_debug_text(accessor, fields@, index as nat),
        decreases fields.len() - index,
    {
        append_field_debug(text, accessor, index, &fields[index]);
        index += 1;
    }
}

fn append_debug_fields(text: &mut String, name: &str, accessor: Accessor, fields: &Fields)
    ensures
        final(text)@ == old(text)@ + debug_fields_text(name@, accessor, *fields),
{
    match fields {
        Fields::Unit => {
            text.append("f.debug_tuple( \"");
            text.append(name);
            text.append("\" ).finish()");
        },
        Fields::Named(named) => {
            text.append("let mut debug_struct = &mut f.debug_struct( \"");
            text.append(name);
            text.append("\" ); ");
            make_fields_debug(text, accessor, named);
            text.append("debug_struct.finish()");
        },
        Fields::Unnamed(unnamed) => {
            text.append("let mut debug_struct = &mut f.debug_tuple( \"");
            text.append(name);
            text.append("\" ); ");
            make_fields_debug(text, accessor, unnamed);
            text.append("debug_struct.finish()");
        },
    }
}

/// Writes the body of `fmt` for `fields` under the name `name`, with the
/// fields visited in the order of their declaration.
pub fn debug_fields(name: &str, accessor: Accessor, fields: &Fields) -> (text: String)
    requires
        plain_name(name@),
        plain_fields(*fields),
    ensures
        text@ == debug_fields_text(name@, accessor, *fields),
{
    let mut text = String::new();
    append_debug_fields(&mut text, name, accessor, fields);
    text
}

fn clone_texts(texts: &Vec<String>) -> (copy: Vec<String>)
    ensures
        texts_view(copy@) == texts_view(texts@),
{
    let mut copy: Vec<String> = Vec::new();
    let mut index: usize = 0;
    while index < texts.len()
        invariant
            index <= texts.len(),
            copy@.len() == index,
            forall|i: int| 0 <= i < index ==> (#[trigger] copy@[i])@ == texts@[i]@,
        decreases texts.len() - index,
    {
        copy.push(texts[index].clone());
        index += 1;
    }
    assert(texts_view(copy@) =~= texts_view(texts@));
    copy
}

fn add_debug_bound(param: &GenericParam) -> (bounded: GenericParam)
    ensures
        bounded@ == with_debug_bound(param@),
{
    match param {
        GenericParam::Lifetime(text) => GenericParam::Lifetime(text.clone()),
        GenericParam::Type { head, bounds, default } => {
            let mut bound = String::from_str("::salsa::DebugWithDb<");
            bound.append(DB_TYPE);
            bound.append(">");
            let mut all = clone_texts(bounds);
            all.push(bound);
            assert(texts_view(all@) =~= texts_view(bounds@).push(debug_bound_text()));
            GenericParam::Type {
                head: head.clone(),
                bounds: all,
                default: match default {
                    Some(text) => Some(text.clone()),
                    None => None,
                },
            }
        },
        GenericParam::Const(text) => GenericParam::Const(text.clone()),
    }
}

/// The generic parameters of the impl for a type that declares `params`:
/// the lifetime of the database goes first, the declared parameters keep
/// their order, and each type parameter, and no other, gets the bound that
/// makes it formattable, after the bounds it has.
pub fn add_debug(params: &Vec<GenericParam>) -> (result: Vec<GenericParam>)
    ensures
        result@.len() == params@.len() + 1,
        result@[0]@ == GenericParamView::Lifetime(DB_LIFETIME@),
        forall|i: int| 0 <= i < params@.len() ==> (#[trigger] result@[i + 1])@ == with_debug_bound(params@[i]@),
        params_view(result@) == with_debug(params_view(params@)),
{
    let mut result: Vec<GenericParam> = Vec::new();
    result.push(GenericParam::Lifetime(String::from_str(DB_LIFETIME)));
    let mut index: usize = 0;
    while index < params.len()
        invariant
            index <= params.len(),
            result@.len() == index + 1,
            result@[0]@ == GenericParamView::Lifetime(DB_LIFETIME@),
            forall|i: int| 0 <= i < index ==> (#[trigger] result@[i + 1])@ == with_debug_bound(params@[i]@),
        decreases params.len() - index,
    {
        result.push(add_debug_bound(&params[index]));
        index += 1;
    }
    assert(params_view(result@) =~= with_debug(params_view(params@))) by {
        let expected = with_debug(params_view(params@));
        assert(seq![GenericParamView::Lifetime(DB_LIFETIME@)].len() == 1);
        assert forall|j: int| 0 <= j < result@.len() implies params_view(result@)[j] == expected[j] by {
            if j > 0 {
                assert(result@[(j - 1) + 1]@ == with_debug_bound(params@[j - 1]@));
            }
        }
    }
    result
}

fn append_bounds(text: &mut String, bounds: &Vec<String>)
    ensures
        final(text)@ == old(text)@ + bounds_text(texts_view(bounds@), bounds@.len()),
{
    let mut index: usize = 0;
    while index < bounds.len()
        invariant
            index <= bounds.len(),
            text@ == old(text)@ + bounds_text(texts_view(bounds@), index as nat),
        decreases bounds.len() - index,
    {
        if index == 0 {
            text.append(" : ");
        } else {
            text.append(" + ");
        }
        text.append(bounds[index].as_str());
        index += 1;
    }
}

fn append_param(text: &mut String, param: &GenericParam)
    ensures
        final(text)@ == old(text)@ + param_text(param@),
{
    match param {
        GenericParam::Lifetime(lifetime) => text.append(lifetime.as_str()),
        GenericParam::Type { head, bounds, default } => {
            text.append(head.as_str());
            append_bounds(text, bounds);
            match default {
                Some(ty) => {
                    text.append(" = ");
                    text.append(ty.as_str());
                },
                None => {},
            }
        },
        GenericParam::Const(constant) => text.append(constant.as_str()),
    }
}

fn append_generics(text: &mut String, params: &Vec<GenericParam>)
    ensures
        final(text)@ == old(text)@ + generics_text(params_view(params@)),
{
    if params.len() == 0 {
        return ;
    }
    text.append("< ");
    let ghost open = text@;
    let mut index: usize = 0;
    while index < params.len()
        invariant
            index <= params.len(),
            text@ == open + params_text(params_view(params@), index as nat),
        decreases params.len() - index,
    {
        if index > 0 {
            text.append(" , ");
        }
        append_param(text, &params[index]);
        index += 1;
    }
    text.append(" >");
}

fn append_impl_open(text: &mut String, ident: &str, generics: &Vec<GenericParam>)
    ensures
        final(text)@ == old(text)@ + "impl "@ + generics_text(with_debug(params_view(generics@)))
            + " ::salsa::DebugWithDb< "@ + DB_TYPE@ + " > for "@ + ident@ + " "@ + generics_text(
            params_view(generics@),
        ) + FMT_OPEN@ + DB_TYPE@ + FMT_BODY@,
{
    let generics_with_debug = add_debug(generics);
    text.append("impl ");
    append_generics(text, &generics_with_debug);
    text.append(" ::salsa::DebugWithDb< ");
    text.append(DB_TYPE);
    text.append(" > for ");
    text.append(ident);
    text.append(" ");
    append_generics(text, generics);
    text.append(FMT_OPEN);
    text.append(DB_TYPE);
    text.append(FMT_BODY);
}

/// Writes the impl for the struct `item`.
pub fn derive_for_struct(item: &ItemStruct) -> (text: String)
    requires
        plain_struct(*item),
    ensures
        text@ == struct_impl_text(*item),
{
    let mut text = String::new();
    append_impl_open(&mut text, item.ident.as_str(), &item.generics);
    append_debug_fields(&mut text, item.ident.as_str(), Accessor::OwnField, &item.fields);
    text.append(" } }");
    text
}

fn append_named_patterns(text: &mut String, fields: &Vec<Field>)
    ensures
        final(text)@ == old(text)@ + named_patterns_text(fields@, fields@.len()),
{
    let mut index: usize = 0;
    while index < fields.len()
        invariant
            index <= fields.len(),
            text@ == old(text)@ + named_patterns_text(fields@, index as nat),
        decreases fields.len() - index,
    {
        append_getter(text, Accessor::BoundByName, index, &fields[index]);
        text.append(" , ");
        index += 1;
    }
}

fn append_unnamed_patterns(text: &mut String, count: usize)
    ensures
        final(text)@ == old(text)@ + unnamed_patterns_text(count as nat),
{
    let mut index: usize = 0;
    while index < count
        invariant
            index <= count,
            text@ == old(text)@ + unnamed_patterns_text(index as nat),
        decreases count - index,
    {
        text.append("x");
        append_decimal(text, index);
        text.append(" , ");
        index += 1;
    }
}

fn append_variant(text: &mut String, variant: &Variant)
    ensures
        final(text)@ == old(text)@ + variant_text(*variant),
{
    text.append("Self:: ");
    text.append(variant.ident.as_str());
    match &variant.fields {
        Fields::Unit => {
            text.append(" => f.debug_tuple( \"");
            text.append(variant.ident.as_str());
            text.append("\" ).finish(), ");
        },
        Fields::Named(named) => {
            text.append(" { ");
            append_named_patterns(text, named);
            text.append("} => { ");
            append_debug_fields(text, variant.ident.as_str(), Accessor::BoundByName, &variant.fields);
            text.append(" }, ");
        },
        Fields::Unnamed(unnamed) => {
            text.append(" ( ");
            append_unnamed_patterns(text, unnamed.len());
            text.append(") => { ");
            append_debug_fields(text, variant.ident.as_str(), Accessor::BoundByPosition, &variant.fields);
            text.append(" }, ");
        },
    }
}

/// Writes the impl for the enum `item`, with one match arm for each
/// variant, in the order of their declaration.
pub fn derive_for_enum(item: &ItemEnum) -> (text: String)
    requires
        plain_enum(*item),
    ensures
        text@ == enum_impl_text(*item),
{
    let mut text = String::new();
    append_impl_open(&mut text, item.ident.as_str(), &item.generics);
    text.append("match self { ");
    let ghost open = text@;
    let mut index: usize = 0;
    while index < item.variants.len()
        invariant
            index <= item.variants.len(),
            text@ == open + variants_text(item.variants@, index as nat),
        decreases item.variants.len() - index,
    {
        append_variant(&mut text, &item.variants[index]);
        index += 1;
    }
    text.append(" }");
    text.append(" } }");
    text
}

/// Whether `name` can be written between quote marks as it is.
pub fn is_plain_name(name: &str) -> (plain: bool)
    ensures
        plain == plain_name(name@),
{
    let len = name.unicode_len();
    let mut index: usize = 0;
    while index < len
        invariant
            index <= len,
            len == name@.len(),
            forall|i: int| 0 <= i < index ==> plain_char(#[trigger] name@[i]),
        decreases len - index,
    {
        let c = name.get_char(index);
        if c == '"' || c == '\\' || c == '\r' {
            return false;
        }
        index += 1;
    }
    true
}

fn is_plain_field(field: &Field) -> (plain: bool)
    ensures
        plain == plain_field(*field),
{
    match &field.ident {
        Some(ident) => is_plain_name(ident.as_str()),
        None => true,
    }
}

fn are_plain_fields(fields: &Vec<Field>) -> (plain: bool)
    ensures
        plain == (forall|i: int| 0 <= i < fields@.len() ==> plain_field(#[trigger] fields@[i])),
{
    let mut index: usize = 0;
    while index < fields.len()
        invariant
            index <= fields.len(),
            forall|i: int| 0 <= i < index ==> plain_field(#[trigger] fields@[i]),
        decreases fields.len() - index,
    {
        if !is_plain_field(&fields[index]) {
            return false;
        }
        index += 1;
    }
    true
}

/// Whether the names of all of `fields` are plain.
pub fn has_plain_names(fields: &Fields) -> (plain: bool)
    ensures
        plain == plain_fields(*fields),
{
    match fields {
        Fields::Unit => true,
        Fields::Named(named) => are_plain_fields(named),
        Fields::Unnamed(unnamed) => are_plain_fields(unnamed),
    }
}

fn is_plain_struct(item: &ItemStruct) -> (plain: bool)
    ensures
        plain == plain_struct(*item),
{
    is_plain_name(item.ident.as_str()) && has_plain_names(&item.fields)
}

fn is_plain_enum(item: &ItemEnum) -> (plain: bool)
    ensures
        plain == plain_enum(*item),
{
    let mut index: usize = 0;
    while index < item.variants.len()
        invariant
            index <= item.variants.len(),
            forall|i: int| 0 <= i < index ==> plain_variant(#[trigger] item.variants@[i]),
        decreases item.variants.len() - index,
    {
        let variant = &item.variants[index];
        if !(is_plain_name(variant.ident.as_str()) && has_plain_names(&variant.fields)) {
            return false;
        }
        index += 1;
    }
    true
}

/// Writes the impl for `item`. Nothing is written for an item that is
/// neither a struct nor an enum, and nothing for one with a name that
/// cannot stand between quote marks as it is.
pub fn derive_debug_with_db(item: &Item) -> (result: Result<String, DeriveError>)
    ensures
        match derived_text(*item) {
            Ok(text) => result matches Ok(written) && written@ == text,
            Err(error) => result == Err::<String, DeriveError>(error),
        },
{
    match item {
        Item::Struct(item) => {
            if is_plain_struct(item) {
                Ok(derive_for_struct(item))
            } else {
                Err(DeriveError::UnquotableName)
            }
        },
        Item::Enum(item) => {
            if is_plain_enum(item) {
                Ok(derive_for_enum(item))
            } else {
                Err(DeriveError::UnquotableName)
            }
        },
        Item::Other => Err(DeriveError::UnsupportedItem),
    }
}

} // verus!
