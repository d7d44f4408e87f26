//! The outcome of the disjointness check, and its reconciliation with the
//! caller's declared expectation.

use vstd::prelude::*;

use crate::error::Error;

verus! {

/// Whether all resolved spans of a call are pairwise disjoint.
///
/// The same type serves two roles: with `T = ()` it is the caller's declared
/// expectation ("require a disjointness proof" vs. "no requirement"), and
/// with `T = Error` it is the checker's finding, where a negative finding
/// carries the overlap evidence.
#[derive(Debug, Copy, Clone, PartialEq, Eq)]
pub enum AreAllDisjoint<T = ()> {
    No(T),
    Yes,
}

impl AreAllDisjoint<()> {
    /// Converts a bare expectation into a finding by attaching a placeholder
    /// overlap error to the negative case.
    pub fn with_dummy_error(self) -> (r: AreAllDisjoint<Error>)
        ensures
            r == (match self {
                AreAllDisjoint::No(()) => AreAllDisjoint::No(
                    Error::OverlappingIndexArgs { left: u16::MAX, right: u16::MAX },
                ),
                AreAllDisjoint::Yes => AreAllDisjoint::<Error>::Yes,
            }),
    {
        match self {
            AreAllDisjoint::No(()) => {
                let err = Error::OverlappingIndexArgs { left: u16::MAX, right: u16::MAX };
                AreAllDisjoint::No(err)
            },
            AreAllDisjoint::Yes => AreAllDisjoint::Yes,
        }
    }
}

impl AreAllDisjoint<Error> {
    /// Compares the checker's finding against the caller's expectation.
    ///
    /// A finding of `Yes` always succeeds: a stronger guarantee than
    /// requested is never an error.  An expectation of `No` always succeeds:
    /// the caller opted out.  Only a negative finding against a positive
    /// expectation fails, surfacing the overlap evidence.
    pub fn check_is_expected<T>(self, expected: &AreAllDisjoint<T>) -> (r: Result<(), Error>)
        ensures
            r == (match self {
                AreAllDisjoint::Yes => Ok::<(), Error>(()),
                AreAllDisjoint::No(e) => if *expected is Yes {
                    Err::<(), Error>(e)
                } else {
                    Ok::<(), Error>(())
                },
            }),
    {
        match (self, expected) {
            (AreAllDisjoint::Yes, _) => Ok(()),
            (_, AreAllDisjoint::No(_)) => Ok(()),
            (AreAllDisjoint::No(x), AreAllDisjoint::Yes) => Err(x),
        }
    }
}

} // verus!
