//! The logical clock.

use vstd::prelude::*;

verus! {

/// A point in logical time. Revisions are totally ordered by their
/// generation; the clock only ever moves forward.
#[derive(Clone, Copy, Debug, PartialEq, Eq, Structural, PartialOrd, Ord, Hash)]
pub struct Revision {
    pub generation: usize,
}

impl View for Revision {
    type V = nat;

    open spec fn view(&self) -> nat {
        self.generation as nat
    }
}

impl Revision {
    /// The revision every database starts in.
    pub open spec fn spec_start() -> Revision {
        Revision { generation: 1 }
    }

    /// The revision every database starts in.
    #[verifier::when_used_as_spec(spec_start)]
    pub fn start() -> (r: Revision)
        ensures
            r == Self::spec_start(),
    {
        Revision { generation: 1 }
    }

    /// The revision that directly follows this one.
    pub open spec fn spec_next(self) -> Revision {
        Revision { generation: (self.generation + 1) as usize }
    }

    /// The revision that directly follows this one.
    #[verifier::when_used_as_spec(spec_next)]
    pub fn next(self) -> (r: Revision)
        requires
            self@ < usize::MAX,
        ensures
            r == self.spec_next(),
            r@ == self@ + 1,
    {
        Revision { generation: self.generation + 1 }
    }

    /// The generation as a machine integer.
    pub fn as_usize(self) -> (g: usize)
        ensures
            g == self@,
    {
        self.generation
    }
}

} // verus!
