//! How a database hands out the storage of one kind of ingredient.

use vstd::prelude::*;
use crate::runtime::Runtime;

verus! {

/// A database that holds a jar of type `J`: the storage units of one part
/// of the program, looked up by the type of the jar alone. The lookup is
/// stable for the life of the database.
pub trait HasJar<J> {
    /// The jar, and the runtime to use with it.
    fn jar(&self) -> (&J, &Runtime);

    /// The jar and the runtime, to change them.
    fn jar_mut(&mut self) -> (&mut J, &mut Runtime);
}

} // verus!
