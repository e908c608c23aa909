//! The addressing scheme: which storage unit, and which entry inside it.

use vstd::prelude::*;

verus! {

/// Identifies one storage unit of a database. An index is handed out once,
/// when the unit is registered, and is never reused.
#[derive(Clone, Copy, Debug, PartialEq, Eq, Structural, Hash)]
pub struct IngredientIndex {
    pub index: u32,
}

impl IngredientIndex {
    pub fn new(index: u32) -> (r: IngredientIndex)
        ensures
            r.index == index,
    {
        IngredientIndex { index }
    }

    pub fn as_u32(self) -> (r: u32)
        ensures
            r == self.index,
    {
        self.index
    }
}

/// Identifies one entry inside the storage of a single ingredient.
#[derive(Clone, Copy, Debug, PartialEq, Eq, Structural, Hash)]
pub struct Id {
    pub value: u32,
}

impl Id {
    pub fn from_u32(value: u32) -> (r: Id)
        ensures
            r.value == value,
    {
        Id { value }
    }

    pub fn as_u32(self) -> (r: u32)
        ensures
            r == self.value,
    {
        self.value
    }
}

/// Something a computation can depend on or produce: one entry of an
/// ingredient, or, with no entry named, the ingredient as a whole.
#[derive(Clone, Copy, Debug, PartialEq, Eq, Structural, Hash)]
pub struct DependencyIndex {
    pub ingredient_index: IngredientIndex,
    pub key_index: Option<Id>,
}

/// Names one concrete computation: an ingredient together with the entry
/// being computed.
#[derive(Clone, Copy, Debug, PartialEq, Eq, Structural, Hash)]
pub struct DatabaseKeyIndex {
    pub ingredient_index: IngredientIndex,
    pub key_index: Id,
}

impl DependencyIndex {
    /// The coarse dependency that stands for a whole ingredient.
    pub fn for_table(ingredient_index: IngredientIndex) -> (r: DependencyIndex)
        ensures
            r == (DependencyIndex { ingredient_index, key_index: None }),
    {
        DependencyIndex { ingredient_index, key_index: None }
    }
}

impl DatabaseKeyIndex {
    pub fn new(ingredient_index: IngredientIndex, key_index: Id) -> (r: DatabaseKeyIndex)
        ensures
            r == (DatabaseKeyIndex { ingredient_index, key_index }),
    {
        DatabaseKeyIndex { ingredient_index, key_index }
    }

    /// The address as one machine word: the ingredient in the high half, the
    /// entry in the low half.
    pub open spec fn slot(self) -> u64 {
        (self.ingredient_index.index * 0x1_0000_0000 + self.key_index.value) as u64
    }

    /// Computes [`Self::slot`].
    pub fn to_slot(self) -> (s: u64)
        ensures
            s == self.slot(),
    {
        let high: u64 = self.ingredient_index.index as u64;
        let low: u64 = self.key_index.value as u64;
        high * 0x1_0000_0000 + low
    }

    /// Two addresses share a slot only if they are the same address.
    pub proof fn lemma_slot_injective(a: DatabaseKeyIndex, b: DatabaseKeyIndex)
        ensures
            a.slot() == b.slot() <==> a == b,
    {
    }
}

} // verus!
