//! Revision-tracked storage for an on-demand incremental computation engine.
//!
//! A [`Runtime`] holds the logical clock and the stack of the computations
//! that are running; what they read and produce is recorded on the topmost
//! frame. An [`accumulator::AccumulatorIngredient`] holds what computations
//! emit on the side, one bucket per computation, each readable only in the
//! revision in which it was filled. [`laws`] states what holds of the
//! buckets across pushes, reads and revisions.
//!
//! [`debug_with_db`] stands apart from the engine: it writes the
//! database-aware debug formatter that is derived for a user's type.
//!
//! Nothing here panics. A misuse that the engine treats as fatal comes back
//! as a [`violation::ContractViolation`], and the call has changed nothing.

pub mod accumulator;
pub mod cycle;
pub mod debug_with_db;
pub mod event;
pub mod ingredient;
pub mod key;
pub mod laws;
pub mod revision;
pub mod runtime;
pub mod storage;
pub mod violation;

pub use event::{Event, EventKind};
pub use key::{DatabaseKeyIndex, Id, IngredientIndex};
pub use revision::Revision;
pub use runtime::Runtime;
