//! Validated multi-index borrowing support for slices.
//!
//! A caller describes several positions of one slice at once — single
//! indices, half-open ranges, ranges whose missing bound is inferred from a
//! neighbouring argument, and tail ranges without an upper bound.  This crate
//! resolves such a list of descriptors into concrete `[start, end)` spans,
//! accumulates aggregate statistics over the resolved spans, decides whether
//! the spans are pairwise disjoint, and compares that finding against the
//! caller's declared expectation.  Every step carries a contract that pins
//! down the resolved spans, the statistics, the reported error and — for the
//! disjointness scan — exactly which overlapping pair is reported.
//!
//! The single aggregate bound `max_bounded_end` dominates the bounded end of
//! every resolved span, so one comparison against the slice length suffices
//! before any span is turned into a subslice.

pub mod are_disjoint;
pub mod error;
pub mod index_argument;
pub mod index_properties;
pub mod laws;
pub mod slice_spans;
pub mod std_const_fns;
pub mod std_ranges;
pub mod test_utils;
pub mod uniqueness;

pub use error::Error;
