//! A bare yes/no disjointness verdict, without overlap evidence.
//!
//! [`crate::are_disjoint::AreAllDisjoint`] is the richer form that carries
//! the offending pair; this type remains for consumers that only need the
//! boolean answer.

use vstd::prelude::*;

verus! {

/// Whether all index arguments of a call are unique (pairwise disjoint).
#[derive(Debug, Copy, Clone, PartialEq, Eq, Structural)]
pub enum AreAllUnique {
    No,
    Yes,
}

impl AreAllUnique {
    /// 1 for a positive verdict, 0 for a negative one.
    pub fn one_if_unique(self) -> (r: usize)
        ensures
            r == (if self is Yes {
                1usize
            } else {
                0usize
            }),
    {
        match self {
            AreAllUnique::No => 0,
            AreAllUnique::Yes => 1,
        }
    }

    /// Demands that two verdicts agree; the precondition rules
    /// disagreement out, so the call can never abort.
    pub fn assert_equals(self, other: Self)
        requires
            self == other,
    {
    }
}

} // verus!
