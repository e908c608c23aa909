use proc_macro2::{Delimiter, TokenStream, TokenTree};
use quote::ToTokens;
use salsa_2022::debug_with_db::{
    add_debug, debug_fields, derive_debug_with_db, derive_for_enum, derive_for_struct, has_plain_names,
    is_plain_name, Accessor, DeriveError, Field, Fields, GenericParam, Item, ItemEnum, ItemStruct,
    Variant,
};

fn named(ident: &str, ty: &str) -> Field {
    Field { ident: Some(ident.to_string()), ty: ty.to_string() }
}

fn type_param(head: &str, bounds: &[&str], default: Option<&str>) -> GenericParam {
    GenericParam::Type {
        head: head.to_string(),
        bounds: bounds.iter().map(|bound| bound.to_string()).collect(),
        default: default.map(|ty| ty.to_string()),
    }
}

const BOUND: &str = "::salsa::DebugWithDb<<crate::Jar as ::salsa::jar::Jar<'db>>::DynDb>";

fn unnamed(ty: &str) -> Field {
    Field { ident: None, ty: ty.to_string() }
}

/// The tokens of `source`, one string for each identifier, literal,
/// punctuation character and delimiter, so that spacing does not count.
fn tokens(source: &str) -> Vec<String> {
    fn flatten(stream: TokenStream, out: &mut Vec<String>) {
        for tree in stream {
            match tree {
                TokenTree::Group(group) => {
                    let (open, close) = match group.delimiter() {
                        Delimiter::Parenthesis => ("(", ")"),
                        Delimiter::Brace => ("{", "}"),
                        Delimiter::Bracket => ("[", "]"),
                        Delimiter::None => ("", ""),
                    };
                    out.push(open.to_string());
                    flatten(group.stream(), out);
                    out.push(close.to_string());
                }
                TokenTree::Ident(ident) => out.push(ident.to_string()),
                TokenTree::Punct(punct) => out.push(punct.as_char().to_string()),
                TokenTree::Literal(literal) => out.push(literal.to_string()),
            }
        }
    }
    let stream: TokenStream = source.parse().unwrap();
    let mut out = Vec::new();
    flatten(stream, &mut out);
    out
}

#[test]
fn struct_without_fields_is_formatted_by_an_empty_tuple_builder() {
    let item = ItemStruct { ident: "Marker".to_string(), generics: vec![], fields: Fields::Unit };
    let written = derive_for_struct(&item);
    assert_eq!(
        written,
        "impl < 'db > ::salsa::DebugWithDb< <crate::Jar as ::salsa::jar::Jar<'db>>::DynDb > for Marker  \
         { fn fmt(&self, f: &mut ::std::fmt::Formatter<'_>, _db: & <crate::Jar as ::salsa::jar::Jar<'db>>::DynDb , \
         _include_all_fields: bool) -> ::std::fmt::Result { #[allow(unused_imports)] \
         use ::salsa::debug::helper::Fallback; f.debug_tuple( \"Marker\" ).finish() } }"
    );
    let parsed: syn::ItemImpl = syn::parse_str(&written).unwrap();
    let method = match &parsed.items[0] {
        syn::ImplItem::Method(method) => method,
        _ => unreachable!(),
    };
    // The import, and the expression that gives the result.
    assert_eq!(method.block.stmts.len(), 2);
    assert!(matches!(method.block.stmts[1], syn::Stmt::Expr(_)));
}

#[test]
fn struct_with_named_fields_uses_a_struct_builder() {
    let item = ItemStruct {
        ident: "Point".to_string(),
        generics: vec![type_param("T", &[], None)],
        fields: Fields::Named(vec![named("x", "T"), named("label", "Option < String >")]),
    };
    let written = derive_for_struct(&item);
    assert_eq!(
        tokens(&written),
        tokens(
            r#"
            impl<'db, T: ::salsa::DebugWithDb<<crate::Jar as ::salsa::jar::Jar<'db>>::DynDb>>
                ::salsa::DebugWithDb<<crate::Jar as ::salsa::jar::Jar<'db>>::DynDb> for Point<T>
            {
                fn fmt(
                    &self,
                    f: &mut ::std::fmt::Formatter<'_>,
                    _db: &<crate::Jar as ::salsa::jar::Jar<'db>>::DynDb,
                    _include_all_fields: bool
                ) -> ::std::fmt::Result {
                    #[allow(unused_imports)]
                    use ::salsa::debug::helper::Fallback;
                    let mut debug_struct = &mut f.debug_struct("Point");
                    debug_struct = debug_struct.field(
                        "x",
                        &::salsa::debug::helper::SalsaDebug::<T, <crate::Jar as salsa::jar::Jar<'db>>::DynDb>::salsa_debug(
                            #[allow(clippy::needless_borrow)]
                            &self.x,
                            _db,
                            _include_all_fields
                        )
                    );
                    debug_struct = debug_struct.field(
                        "label",
                        &::salsa::debug::helper::SalsaDebug::<Option<String>, <crate::Jar as salsa::jar::Jar<'db>>::DynDb>::salsa_debug(
                            #[allow(clippy::needless_borrow)]
                            &self.label,
                            _db,
                            _include_all_fields
                        )
                    );
                    debug_struct.finish()
                }
            }
            "#
        )
    );
    assert!(syn::parse_str::<syn::ItemImpl>(&written).is_ok());
}

#[test]
fn struct_with_unnamed_fields_uses_a_tuple_builder() {
    let item = ItemStruct {
        ident: "Pair".to_string(),
        generics: vec![],
        fields: Fields::Unnamed(vec![unnamed("u32"), unnamed("Vec < u8 >")]),
    };
    let written = derive_for_struct(&item);
    assert_eq!(
        tokens(&written),
        tokens(
            r#"
            impl<'db> ::salsa::DebugWithDb<<crate::Jar as ::salsa::jar::Jar<'db>>::DynDb> for Pair {
                fn fmt(
                    &self,
                    f: &mut ::std::fmt::Formatter<'_>,
                    _db: &<crate::Jar as ::salsa::jar::Jar<'db>>::DynDb,
                    _include_all_fields: bool
                ) -> ::std::fmt::Result {
                    #[allow(unused_imports)]
                    use ::salsa::debug::helper::Fallback;
                    let mut debug_struct = &mut f.debug_tuple("Pair");
                    debug_struct = debug_struct.field(
                        &::salsa::debug::helper::SalsaDebug::<u32, <crate::Jar as salsa::jar::Jar<'db>>::DynDb>::salsa_debug(
                            #[allow(clippy::needless_borrow)]
                            &self.0,
                            _db,
                            _include_all_fields
                        )
                    );
                    debug_struct = debug_struct.field(
                        &::salsa::debug::helper::SalsaDebug::<Vec<u8>, <crate::Jar as salsa::jar::Jar<'db>>::DynDb>::salsa_debug(
                            #[allow(clippy::needless_borrow)]
                            &self.1,
                            _db,
                            _include_all_fields
                        )
                    );
                    debug_struct.finish()
                }
            }
            "#
        )
    );
    assert!(syn::parse_str::<syn::ItemImpl>(&written).is_ok());
}

#[test]
fn enum_gets_one_arm_for_each_variant_in_order() {
    let item = ItemEnum {
        ident: "Shape".to_string(),
        generics: vec![],
        variants: vec![
            Variant { ident: "Empty".to_string(), fields: Fields::Unit },
            Variant {
                ident: "Rect".to_string(),
                fields: Fields::Named(vec![named("w", "u32"), named("h", "u32")]),
            },
            Variant {
                ident: "Line".to_string(),
                fields: Fields::Unnamed(vec![unnamed("Point"), unnamed("Point")]),
            },
        ],
    };
    let written = derive_for_enum(&item);
    assert_eq!(
        tokens(&written),
        tokens(
            r#"
            impl<'db> ::salsa::DebugWithDb<<crate::Jar as ::salsa::jar::Jar<'db>>::DynDb> for Shape {
                fn fmt(
                    &self,
                    f: &mut ::std::fmt::Formatter<'_>,
                    _db: &<crate::Jar as ::salsa::jar::Jar<'db>>::DynDb,
                    _include_all_fields: bool
                ) -> ::std::fmt::Result {
                    #[allow(unused_imports)]
                    use ::salsa::debug::helper::Fallback;
                    match self {
                        Self::Empty => f.debug_tuple("Empty").finish(),
                        Self::Rect { w, h, } => {
                            let mut debug_struct = &mut f.debug_struct("Rect");
                            debug_struct = debug_struct.field(
                                "w",
                                &::salsa::debug::helper::SalsaDebug::<u32, <crate::Jar as salsa::jar::Jar<'db>>::DynDb>::salsa_debug(
                                    #[allow(clippy::needless_borrow)]
                                    &w,
                                    _db,
                                    _include_all_fields
                                )
                            );
                            debug_struct = debug_struct.field(
                                "h",
                                &::salsa::debug::helper::SalsaDebug::<u32, <crate::Jar as salsa::jar::Jar<'db>>::DynDb>::salsa_debug(
                                    #[allow(clippy::needless_borrow)]
                                    &h,
                                    _db,
                                    _include_all_fields
                                )
                            );
                            debug_struct.finish()
                        },
                        Self::Line(x0, x1,) => {
                            let mut debug_struct = &mut f.debug_tuple("Line");
                            debug_struct = debug_struct.field(
                                &::salsa::debug::helper::SalsaDebug::<Point, <crate::Jar as salsa::jar::Jar<'db>>::DynDb>::salsa_debug(
                                    #[allow(clippy::needless_borrow)]
                                    &x0,
                                    _db,
                                    _include_all_fields
                                )
                            );
                            debug_struct = debug_struct.field(
                                &::salsa::debug::helper::SalsaDebug::<Point, <crate::Jar as salsa::jar::Jar<'db>>::DynDb>::salsa_debug(
                                    #[allow(clippy::needless_borrow)]
                                    &x1,
                                    _db,
                                    _include_all_fields
                                )
                            );
                            debug_struct.finish()
                        },
                    }
                }
            }
            "#
        )
    );
    assert!(syn::parse_str::<syn::ItemImpl>(&written).is_ok());
}

#[test]
fn enum_without_variants_gets_an_empty_match() {
    let item = ItemEnum {
        ident: "Never".to_string(),
        generics: vec![],
        variants: vec![],
    };
    let written = derive_for_enum(&item);
    assert_eq!(
        written,
        "impl < 'db > ::salsa::DebugWithDb< <crate::Jar as ::salsa::jar::Jar<'db>>::DynDb > for Never  \
         { fn fmt(&self, f: &mut ::std::fmt::Formatter<'_>, _db: & <crate::Jar as ::salsa::jar::Jar<'db>>::DynDb , \
         _include_all_fields: bool) -> ::std::fmt::Result { #[allow(unused_imports)] \
         use ::salsa::debug::helper::Fallback; match self {  } } }"
    );
    assert!(syn::parse_str::<syn::ItemImpl>(&written).is_ok());
}

#[test]
fn no_fields_are_formatted_by_a_tuple_builder_finished_at_once() {
    assert_eq!(
        debug_fields("Marker", Accessor::OwnField, &Fields::Unit),
        "f.debug_tuple( \"Marker\" ).finish()"
    );
    assert_eq!(
        debug_fields("Marker", Accessor::BoundByName, &Fields::Unit),
        "f.debug_tuple( \"Marker\" ).finish()"
    );
}

#[test]
fn builders_without_fields_finish_at_once() {
    assert_eq!(
        debug_fields("Empty", Accessor::OwnField, &Fields::Named(vec![])),
        "let mut debug_struct = &mut f.debug_struct( \"Empty\" ); debug_struct.finish()"
    );
    assert_eq!(
        debug_fields("Empty", Accessor::OwnField, &Fields::Unnamed(vec![])),
        "let mut debug_struct = &mut f.debug_tuple( \"Empty\" ); debug_struct.finish()"
    );
}

#[test]
fn one_named_field_of_a_struct() {
    assert_eq!(
        debug_fields("S", Accessor::OwnField, &Fields::Named(vec![named("a", "u8")])),
        "let mut debug_struct = &mut f.debug_struct( \"S\" ); \
         debug_struct = debug_struct.field( \"a\", &::salsa::debug::helper::SalsaDebug::< u8 , \
         <crate::Jar as salsa::jar::Jar<'db>>::DynDb >::salsa_debug( #[allow(clippy::needless_borrow)] \
         & self . a , _db, _include_all_fields ) ); debug_struct.finish()"
    );
}

#[test]
fn one_unnamed_field_of_a_variant() {
    assert_eq!(
        debug_fields("V", Accessor::BoundByPosition, &Fields::Unnamed(vec![unnamed("u8")])),
        "let mut debug_struct = &mut f.debug_tuple( \"V\" ); \
         debug_struct = debug_struct.field( &::salsa::debug::helper::SalsaDebug::< u8 , \
         <crate::Jar as salsa::jar::Jar<'db>>::DynDb >::salsa_debug( #[allow(clippy::needless_borrow)] \
         & x0 , _db, _include_all_fields ) ); debug_struct.finish()"
    );
}

#[test]
fn positions_are_written_in_decimal() {
    let fields = Fields::Unnamed((0..12).map(|_| unnamed("u8")).collect());
    let own = debug_fields("T", Accessor::OwnField, &fields);
    let bound = debug_fields("T", Accessor::BoundByPosition, &fields);
    for position in ["0", "1", "9", "10", "11"] {
        assert!(own.contains(&format!("& self . {} , _db", position)));
        assert!(bound.contains(&format!("& x{} , _db", position)));
    }
    assert!(!own.contains("& self . 12 "));
    assert!(!bound.contains("& x12 "));
    assert_eq!(own.matches("debug_struct.field(").count(), 12);
}

#[test]
fn large_positions_are_written_in_full() {
    let fields = Fields::Unnamed((0..1235).map(|_| unnamed("u8")).collect());
    let own = debug_fields("T", Accessor::OwnField, &fields);
    assert!(own.contains("& self . 100 , _db"));
    assert!(own.contains("& self . 1009 , _db"));
    assert!(own.ends_with(
        "& self . 1234 , _db, _include_all_fields ) ); debug_struct.finish()"
    ));
}

#[test]
fn a_named_field_is_found_by_its_name_whatever_the_builder() {
    let fields = Fields::Unnamed(vec![named("a", "u8")]);
    let written = debug_fields("T", Accessor::OwnField, &fields);
    assert!(written.starts_with("let mut debug_struct = &mut f.debug_tuple( \"T\" ); "));
    assert!(written.contains("debug_struct.field( \"a\", &::salsa"));
    assert!(written.contains("& self . a , _db"));
}

#[test]
fn a_field_without_name_bound_by_name_has_no_getter() {
    let fields = Fields::Named(vec![unnamed("u8")]);
    let written = debug_fields("T", Accessor::BoundByName, &fields);
    assert!(written.contains("#[allow(clippy::needless_borrow)] &  , _db"));
    assert!(written.contains("debug_struct.field( &::salsa"));
}

#[test]
fn the_derive_is_for_structs_and_enums() {
    assert_eq!(derive_debug_with_db(&Item::Other), Err(DeriveError::UnsupportedItem));

    let item = ItemStruct {
        ident: "Marker".to_string(),
        generics: vec![],
        fields: Fields::Unit,
    };
    let expected = derive_for_struct(&item);
    assert_eq!(derive_debug_with_db(&Item::Struct(item)), Ok(expected));

    let item = ItemEnum {
        ident: "Shape".to_string(),
        generics: vec![],
        variants: vec![Variant { ident: "Empty".to_string(), fields: Fields::Unit }],
    };
    let expected = derive_for_enum(&item);
    assert_eq!(derive_debug_with_db(&Item::Enum(item)), Ok(expected));
}

#[test]
fn the_database_lifetime_goes_first_and_types_get_the_bound() {
    let declared = vec![
        GenericParam::Lifetime("'a : 'b".to_string()),
        type_param("T", &[], None),
        GenericParam::Const("const N : usize".to_string()),
        type_param("U", &["Clone", "'a"], Some("u32")),
    ];
    assert_eq!(
        add_debug(&declared),
        vec![
            GenericParam::Lifetime("'db".to_string()),
            GenericParam::Lifetime("'a : 'b".to_string()),
            type_param("T", &[BOUND], None),
            GenericParam::Const("const N : usize".to_string()),
            type_param("U", &["Clone", "'a", BOUND], Some("u32")),
        ]
    );
}

#[test]
fn a_type_without_parameters_still_gets_the_database_lifetime() {
    assert_eq!(add_debug(&vec![]), vec![GenericParam::Lifetime("'db".to_string())]);
}

#[test]
fn generics_are_written_in_the_order_of_their_declaration() {
    let item = ItemStruct {
        ident: "Grid".to_string(),
        generics: vec![
            GenericParam::Lifetime("'a".to_string()),
            type_param("T", &["Clone", "Send"], None),
            type_param("U", &[], Some("u8")),
            GenericParam::Const("const N : usize".to_string()),
        ],
        fields: Fields::Unit,
    };
    let written = derive_for_struct(&item);
    assert!(written.starts_with(
        "impl < 'db , 'a , T : Clone + Send + ::salsa::DebugWithDb<<crate::Jar as ::salsa::jar::Jar<'db>>::DynDb> , \
         U : ::salsa::DebugWithDb<<crate::Jar as ::salsa::jar::Jar<'db>>::DynDb> = u8 , const N : usize > \
         ::salsa::DebugWithDb< <crate::Jar as ::salsa::jar::Jar<'db>>::DynDb > \
         for Grid < 'a , T : Clone + Send , U = u8 , const N : usize > { fn fmt("
    ));
}

#[test]
fn a_type_parameter_with_bounds_parses_with_the_new_bound_after_them() {
    let item = ItemStruct {
        ident: "Holder".to_string(),
        generics: vec![type_param("T", &["Clone"], None)],
        fields: Fields::Unnamed(vec![unnamed("T")]),
    };
    let written = derive_for_struct(&item);
    let start = written.find(" for Holder").unwrap();
    let header = format!("{} for Holder < T > {{ }}", &written[..start]);
    let parsed: syn::ItemImpl = syn::parse_str(&header).unwrap();
    assert_eq!(parsed.generics.params.len(), 2);
    match &parsed.generics.params[1] {
        syn::GenericParam::Type(param) => {
            assert_eq!(param.ident.to_string(), "T");
            assert_eq!(param.bounds.len(), 2);
            assert_eq!(param.bounds[0].to_token_stream().to_string(), "Clone");
        }
        _ => unreachable!(),
    }
}

#[test]
fn names_with_a_quote_mark_a_backslash_or_a_return_are_not_plain() {
    assert!(is_plain_name(""));
    assert!(is_plain_name("Point"));
    assert!(is_plain_name("r#type"));
    assert!(is_plain_name("na\u{ef}ve_\u{4e16}\u{754c}"));
    assert!(is_plain_name("it's"));
    assert!(!is_plain_name("a\"b"));
    assert!(!is_plain_name("\""));
    assert!(!is_plain_name("a\\b"));
    assert!(!is_plain_name("ab\r"));
    assert!(!is_plain_name("\u{4e16}\\"));

    assert!(has_plain_names(&Fields::Unit));
    assert!(has_plain_names(&Fields::Named(vec![named("a", "\"")])));
    assert!(has_plain_names(&Fields::Unnamed(vec![unnamed("u8"), named("b", "u8")])));
    assert!(!has_plain_names(&Fields::Named(vec![named("a", "u8"), named("b\"", "u8")])));
    assert!(!has_plain_names(&Fields::Unnamed(vec![named("\\", "u8")])));
}

#[test]
fn a_name_that_is_not_plain_is_not_written() {
    let item = ItemStruct { ident: "a\"b".to_string(), generics: vec![], fields: Fields::Unit };
    assert_eq!(derive_debug_with_db(&Item::Struct(item)), Err(DeriveError::UnquotableName));

    let item = ItemStruct {
        ident: "S".to_string(),
        generics: vec![],
        fields: Fields::Named(vec![named("ok", "u8"), named("not\\ok", "u8")]),
    };
    assert_eq!(derive_debug_with_db(&Item::Struct(item)), Err(DeriveError::UnquotableName));

    let item = ItemEnum {
        ident: "E".to_string(),
        generics: vec![],
        variants: vec![
            Variant { ident: "A".to_string(), fields: Fields::Unit },
            Variant { ident: "B\r".to_string(), fields: Fields::Unit },
        ],
    };
    assert_eq!(derive_debug_with_db(&Item::Enum(item)), Err(DeriveError::UnquotableName));

    let item = ItemEnum {
        ident: "E".to_string(),
        generics: vec![],
        variants: vec![Variant {
            ident: "A".to_string(),
            fields: Fields::Unnamed(vec![named("x\"", "u8")]),
        }],
    };
    assert_eq!(derive_debug_with_db(&Item::Enum(item)), Err(DeriveError::UnquotableName));
}

#[test]
fn the_name_of_an_enum_is_not_written_between_quote_marks() {
    let item = ItemEnum {
        ident: "a\"b".to_string(),
        generics: vec![],
        variants: vec![Variant { ident: "A".to_string(), fields: Fields::Unit }],
    };
    assert!(derive_debug_with_db(&Item::Enum(item)).is_ok());
}

#[test]
fn what_is_written_for_a_parsed_struct_parses_as_an_impl() {
    let parsed: syn::ItemStruct =
        syn::parse_str("struct Entry<'a, K> { key: &'a K, hits: Vec<(u32, String)>, r#type: u8 }").unwrap();
    let fields = match &parsed.fields {
        syn::Fields::Named(fields) => fields
            .named
            .iter()
            .map(|field| Field {
                ident: field.ident.as_ref().map(|ident| ident.to_string()),
                ty: field.ty.to_token_stream().to_string(),
            })
            .collect(),
        _ => unreachable!(),
    };
    let item = ItemStruct {
        ident: parsed.ident.to_string(),
        generics: vec![GenericParam::Lifetime("'a".to_string()), type_param("K", &[], None)],
        fields: Fields::Named(fields),
    };
    let written = derive_for_struct(&item);
    let parsed_back: syn::ItemImpl = syn::parse_str(&written).unwrap();
    assert_eq!(parsed_back.generics.params.len(), 3);
    assert_eq!(parsed_back.self_ty.to_token_stream().to_string(), "Entry < 'a , K >");
    assert_eq!(parsed_back.items.len(), 1);
    let method = match &parsed_back.items[0] {
        syn::ImplItem::Method(method) => method,
        _ => unreachable!(),
    };
    assert_eq!(method.sig.ident.to_string(), "fmt");
    assert_eq!(method.sig.inputs.len(), 4);
    // The import, the builder, one statement for each field, and the end.
    assert_eq!(method.block.stmts.len(), 6);
    assert!(written.contains("debug_struct.field( \"r#type\", "));
    assert!(written.contains("& self . r#type , _db"));
}
