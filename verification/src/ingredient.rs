//! What every storage unit offers to the engine.

use vstd::prelude::*;
use crate::cycle::CycleRecoveryStrategy;
use crate::event::Event;
use crate::key::{DatabaseKeyIndex, DependencyIndex, Id};
use crate::revision::Revision;
use crate::runtime::{QueryOrigin, Runtime};
use crate::violation::ContractViolation;

verus! {

/// A storage unit responsible for one category of tracked data. The engine
/// addresses all units alike and drives them through these hooks.
///
/// A hook that a kind of unit does not support reports a
/// [`ContractViolation`] and changes nothing.
pub trait Ingredient {
    /// Could the value at `input` have changed at or after `revision`?
    fn maybe_changed_after(&self, runtime: &Runtime, input: DependencyIndex, revision: Revision) -> Result<
        bool,
        ContractViolation,
    >;

    /// What happens when a computation of this unit re-enters itself.
    fn cycle_recovery_strategy(&self) -> CycleRecoveryStrategy;

    /// How the entry `key_index` was derived, if that is known.
    fn origin(&self, key_index: Id) -> Option<QueryOrigin>;

    /// `executor` was found to be still valid in the current revision, so
    /// what it produced here earlier is still its output.
    fn mark_validated_output(
        &mut self,
        runtime: &Runtime,
        executor: DatabaseKeyIndex,
        output_key: Option<Id>,
    ) -> Result<(), ContractViolation>;

    /// `executor` was found to be stale and is about to run again, so what
    /// it produced here earlier must go. Returns the event to report, if
    /// anything was discarded.
    fn remove_stale_output(
        &mut self,
        runtime: &Runtime,
        executor: DatabaseKeyIndex,
        stale_output_key: Option<Id>,
    ) -> Result<Option<Event>, ContractViolation>;

    /// Clears state that is scoped to one revision. Called only on units
    /// whose [`IngredientRequiresReset::RESET_ON_NEW_REVISION`] is `true`.
    fn reset_for_new_revision(&mut self) -> Result<(), ContractViolation>;

    /// A tracked struct that this unit depends on was deleted.
    fn salsa_struct_deleted(&self, id: Id) -> Result<(), ContractViolation>;
}

/// Tells the owning storage whether its reset pass has to visit a unit.
pub trait IngredientRequiresReset {
    const RESET_ON_NEW_REVISION: bool;
}

} // verus!
