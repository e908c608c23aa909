//! What to do when a computation turns out to depend on itself.

use vstd::prelude::*;
use crate::key::DatabaseKeyIndex;

verus! {

/// The policy of an ingredient for a computation that re-enters itself.
#[derive(Clone, Copy, Debug, PartialEq, Eq, Structural, Hash)]
pub enum CycleRecoveryStrategy {
    /// A cycle is a fatal misuse of the engine.
    Panic,
    /// A cycle resolves to a configured fallback value, so that a
    /// fixpoint computation can terminate.
    Fallback,
}

/// A computation was entered while it was already running. Unlike a
/// [`crate::violation::ContractViolation`] this can be recovered from, if the
/// ingredient's strategy says so.
#[derive(Clone, Copy, Debug, PartialEq, Eq, Structural, Hash)]
pub struct Cycle {
    /// The computation that was entered again.
    pub key: DatabaseKeyIndex,
}

} // verus!
