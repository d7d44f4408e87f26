//! The closed set of validation failures.
//!
//! Every error of the resolution and checking pipeline carries the 0-based
//! position of the descriptor that triggered it; an overlap error carries the
//! positions of both participants.

use vstd::prelude::*;

verus! {

/// A validation failure discovered while resolving a descriptor list or
/// while checking the resolved spans for pairwise disjointness.
#[derive(Debug, PartialEq, Eq, Copy, Clone, Structural)]
pub enum Error {
    /// A descriptor without an explicit start needed the previous
    /// descriptor's end, but that end is unbounded.
    PrevEndIsUnbounded { current_index: u16 },
    /// A descriptor without an explicit end needed the next descriptor's
    /// start, but that start is absent.
    NextStartIsUnbounded { current_index: u16 },
    /// A descriptor without an explicit end found that the next descriptor
    /// starts before the current one.
    NextStartIsLessThanCurrent { current_index: u16 },
    /// The descriptor was an inclusive range up to the numeric maximum,
    /// whose exclusive end cannot be represented.
    InclusiveUptoUsizeMax { current_index: u16 },
    /// The descriptor was a single index equal to the numeric maximum,
    /// which is rejected to keep all later arithmetic overflow-free.
    UsizeMaxIndex { current_index: u16 },
    /// Two resolved spans share at least one element.
    OverlappingIndexArgs { left: u16, right: u16 },
}

/// The tag of an [`Error`] variant, with `OK` for the absence of an error.
#[derive(Debug, PartialEq, Eq, Copy, Clone, Structural)]
pub enum ErrorKind {
    OK,
    PrevEndIsUnbounded,
    NextStartIsUnbounded,
    NextStartIsLessThanCurrent,
    InclusiveUptoUsizeMax,
    UsizeMaxIndex,
    OverlappingIndexArgs,
}

/// An [`Error`] flattened into a fixed shape: a kind tag plus up to two
/// positional payloads.
#[derive(Debug, Copy, Clone, PartialEq, Eq, Structural)]
pub struct ErrorTuple {
    pub kind: ErrorKind,
    pub first: usize,
    pub second: usize,
}

impl ErrorTuple {
    fn new(kind: ErrorKind, first: usize, second: usize) -> (r: Self)
        ensures
            r == (ErrorTuple { kind, first, second }),
    {
        Self { kind, first, second }
    }
}

impl Error {
    /// The flattened form of this error: its kind, the triggering position
    /// in `first`, and for overlap errors the second participant in `second`.
    pub open spec fn spec_to_tuple(self) -> ErrorTuple {
        match self {
            Error::PrevEndIsUnbounded { current_index } => ErrorTuple {
                kind: ErrorKind::PrevEndIsUnbounded,
                first: current_index as usize,
                second: 0,
            },
            Error::NextStartIsUnbounded { current_index } => ErrorTuple {
                kind: ErrorKind::NextStartIsUnbounded,
                first: current_index as usize,
                second: 0,
            },
            Error::NextStartIsLessThanCurrent { current_index } => ErrorTuple {
                kind: ErrorKind::NextStartIsLessThanCurrent,
                first: current_index as usize,
                second: 0,
            },
            Error::InclusiveUptoUsizeMax { current_index } => ErrorTuple {
                kind: ErrorKind::InclusiveUptoUsizeMax,
                first: current_index as usize,
                second: 0,
            },
            Error::UsizeMaxIndex { current_index } => ErrorTuple {
                kind: ErrorKind::UsizeMaxIndex,
                first: current_index as usize,
                second: 0,
            },
            Error::OverlappingIndexArgs { left, right } => ErrorTuple {
                kind: ErrorKind::OverlappingIndexArgs,
                first: left as usize,
                second: right as usize,
            },
        }
    }

    /// Flattens this error into an [`ErrorTuple`].
    pub fn to_tuple(&self) -> (r: ErrorTuple)
        ensures
            r == self.spec_to_tuple(),
    {
        match *self {
            Error::PrevEndIsUnbounded { current_index } => ErrorTuple::new(
                ErrorKind::PrevEndIsUnbounded,
                current_index as usize,
                0,
            ),
            Error::NextStartIsUnbounded { current_index } => ErrorTuple::new(
                ErrorKind::NextStartIsUnbounded,
                current_index as usize,
                0,
            ),
            Error::NextStartIsLessThanCurrent { current_index } => ErrorTuple::new(
                ErrorKind::NextStartIsLessThanCurrent,
                current_index as usize,
                0,
            ),
            Error::InclusiveUptoUsizeMax { current_index } => ErrorTuple::new(
                ErrorKind::InclusiveUptoUsizeMax,
                current_index as usize,
                0,
            ),
            Error::UsizeMaxIndex { current_index } => ErrorTuple::new(
                ErrorKind::UsizeMaxIndex,
                current_index as usize,
                0,
            ),
            Error::OverlappingIndexArgs { left, right } => ErrorTuple::new(
                ErrorKind::OverlappingIndexArgs,
                left as usize,
                right as usize,
            ),
        }
    }
}

/// Flattens a whole pipeline outcome: `Ok` becomes the `OK` tuple, an error
/// becomes its flattened form.
pub fn result_to_tuple(result: Result<(), Error>) -> (r: ErrorTuple)
    ensures
        r == (match result {
            Ok(()) => ErrorTuple { kind: ErrorKind::OK, first: 0, second: 0 },
            Err(e) => e.spec_to_tuple(),
        }),
{
    match result {
        Ok(()) => ErrorTuple::new(ErrorKind::OK, 0, 0),
        Err(m_error) => m_error.to_tuple(),
    }
}

} // verus!
