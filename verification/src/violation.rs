//! Misuse of the engine by the code that embeds it.

use vstd::prelude::*;

verus! {

/// A call that is illegal by construction. The operation that reports one
/// has stopped at once and has changed nothing; this is not a failure of a
/// computation that could be retried.
#[derive(Clone, Copy, Debug, PartialEq, Eq, Structural, Hash)]
pub enum ContractViolation {
    /// A value was accumulated while no computation was running.
    AccumulateOutsideQuery,
    /// An output was recorded while no computation was running.
    OutputOutsideQuery,
    /// Something asked whether an accumulator had changed.
    DependOnAccumulator,
    /// An accumulator was asked to reset itself for a new revision.
    ResetAccumulator,
    /// An accumulator was told of an output that names an entry.
    UnexpectedOutputKey,
    /// An accumulator was told that a tracked struct was deleted.
    UnexpectedStructDeletion,
}

} // verus!
