//! Diagnostic events reported at the moment of a state transition.

use vstd::prelude::*;
use crate::key::{DatabaseKeyIndex, DependencyIndex};

verus! {

/// Identifies the runtime on which an event happened.
#[derive(Clone, Copy, Debug, PartialEq, Eq, Structural, Hash)]
pub struct RuntimeId {
    pub counter: usize,
}

/// What happened.
#[derive(Clone, Copy, Debug, PartialEq, Eq, Structural, Hash)]
pub enum EventKind {
    /// The values that `executor_key` had accumulated into `accumulator`
    /// were discarded because `executor_key` is about to run again.
    DidDiscardAccumulated { executor_key: DatabaseKeyIndex, accumulator: DependencyIndex },
}

/// A notable state transition, for telemetry. Delivery is best effort.
#[derive(Clone, Copy, Debug, PartialEq, Eq, Structural, Hash)]
pub struct Event {
    pub runtime_id: RuntimeId,
    pub kind: EventKind,
}

} // verus!
