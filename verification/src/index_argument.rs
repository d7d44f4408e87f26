//! Span descriptors, resolved spans, and the one-pass resolver.
//!
//! A [`PrenormIndex`] is a caller-supplied descriptor: a single index, a
//! range whose missing bounds are inferred from the neighbouring
//! descriptors, or the poison value for an inclusive range up to the numeric
//! maximum.  The resolver turns the descriptor at one position into an
//! [`IndexArgument`] — a concrete `[start, end)` span or an unbounded tail —
//! while threading the [`IndexArgumentStats`] accumulator through.
//!
//! The spec functions [`spec_resolve`], [`spec_span`] and [`spec_stats`]
//! are the mathematical model of that pass: the executable functions are
//! proved to return exactly what the model says, error cases included.

use vstd::prelude::*;

use crate::error::Error;
use crate::index_properties::{IndexArgumentStats, IndexArgumentsAndStats};

verus! {

/// A caller-supplied, not yet resolved index or range descriptor.
#[derive(Debug, Clone, Copy, PartialEq, Eq)]
pub enum PrenormIndex {
    /// A single element at this position.
    Index(usize),
    /// A half-open range; an absent bound is inferred from the neighbouring
    /// descriptors (or defaults to the sequence's edges).
    Range { start: Option<usize>, end: Option<usize> },
    /// A poison value for an inclusive range up to `usize::MAX`; always
    /// rejected, because its exclusive end cannot be represented.
    InclusiveToMax { start: Option<usize> },
}

/// The declared start of a raw descriptor, before any neighbour inference.
pub open spec fn prenorm_start(p: PrenormIndex) -> Option<usize> {
    match p {
        PrenormIndex::Index(i) => Some(i),
        PrenormIndex::Range { start, .. } => start,
        PrenormIndex::InclusiveToMax { start } => start,
    }
}

/// The declared exclusive end of a raw descriptor, before any neighbour
/// inference.  A single index `i` ends at `i + 1`; an unbounded or poison
/// end is `None`.  The result is an `int` because `usize::MAX + 1` does not
/// fit the index type.
pub open spec fn prenorm_end(p: PrenormIndex) -> Option<int> {
    match p {
        PrenormIndex::Index(i) => Some(i + 1),
        PrenormIndex::Range { end, .. } => match end {
            Some(e) => Some(e as int),
            None => None,
        },
        PrenormIndex::InclusiveToMax { .. } => None,
    }
}

impl PrenormIndex {
    /// The declared start of this descriptor, if any.
    pub fn start(&self) -> (r: Option<usize>)
        ensures
            r == prenorm_start(*self),
    {
        match *self {
            Self::Index(i) => Some(i),
            Self::Range { start, .. } => start,
            Self::InclusiveToMax { start } => start,
        }
    }

    /// The declared exclusive end of this descriptor, if any.
    ///
    /// A single index at `usize::MAX` is excluded: its end would not fit the
    /// index type.  The resolver rejects such a descriptor before ever
    /// asking for its end.
    pub fn end(&self) -> (r: Option<usize>)
        requires
            *self matches PrenormIndex::Index(i) ==> i < usize::MAX,
        ensures
            r == (match prenorm_end(*self) {
                Some(e) => Some(e as usize),
                None => None::<usize>,
            }),
    {
        match *self {
            Self::Index(i) => Some(i + 1),
            Self::Range { end, .. } => end,
            Self::InclusiveToMax { .. } => None,
        }
    }
}

/// Adapter that turns each supported index or range shape into a
/// [`PrenormIndex`], one `call` per shape.
pub struct IntoPrenormIndex<T>(pub T);

impl IntoPrenormIndex<usize> {
    /// A single index.
    pub fn call(self) -> (r: PrenormIndex)
        ensures
            r == PrenormIndex::Index(self.0),
    {
        PrenormIndex::Index(self.0)
    }
}

impl IntoPrenormIndex<core::ops::Range<usize>> {
    /// A half-open range with both bounds explicit.
    pub fn call(self) -> (r: PrenormIndex)
        ensures
            r == (PrenormIndex::Range { start: Some(self.0.start), end: Some(self.0.end) }),
    {
        PrenormIndex::Range { start: Some(self.0.start), end: Some(self.0.end) }
    }
}

impl IntoPrenormIndex<core::ops::RangeFull> {
    /// A range with both bounds left to inference.
    pub fn call(self) -> (r: PrenormIndex)
        ensures
            r == (PrenormIndex::Range { start: None::<usize>, end: None::<usize> }),
    {
        PrenormIndex::Range { start: None, end: None }
    }
}

impl IntoPrenormIndex<core::ops::RangeFrom<usize>> {
    /// A range with an explicit start and an inferred end.
    pub fn call(self) -> (r: PrenormIndex)
        ensures
            r == (PrenormIndex::Range { start: Some(self.0.start), end: None::<usize> }),
    {
        PrenormIndex::Range { start: Some(self.0.start), end: None }
    }
}

impl IntoPrenormIndex<core::ops::RangeTo<usize>> {
    /// A range with an inferred start and an explicit end.
    pub fn call(self) -> (r: PrenormIndex)
        ensures
            r == (PrenormIndex::Range { start: None::<usize>, end: Some(self.0.end) }),
    {
        PrenormIndex::Range { start: None, end: Some(self.0.end) }
    }
}

impl IntoPrenormIndex<core::ops::RangeInclusive<usize>> {
    /// An inclusive range: its end becomes exclusive by adding one, except
    /// that an inclusive end of `usize::MAX` has no representable
    /// exclusive end and becomes the poison value.
    pub fn call(self) -> (r: PrenormIndex)
        ensures
            r == (if self.0@.end == usize::MAX {
                PrenormIndex::InclusiveToMax { start: Some(self.0@.start) }
            } else {
                PrenormIndex::Range {
                    start: Some(self.0@.start),
                    end: Some((self.0@.end + 1) as usize),
                }
            }),
    {
        let start = *self.0.start();
        let end = *self.0.end();
        if end == usize::MAX {
            PrenormIndex::InclusiveToMax { start: Some(start) }
        } else {
            PrenormIndex::Range { start: Some(start), end: Some(end + 1) }
        }
    }
}

impl IntoPrenormIndex<core::ops::RangeToInclusive<usize>> {
    /// An inclusive range with an inferred start; its end becomes
    /// exclusive by adding one, with the same poison case as above.
    pub fn call(self) -> (r: PrenormIndex)
        ensures
            r == (if self.0.end == usize::MAX {
                PrenormIndex::InclusiveToMax { start: None::<usize> }
            } else {
                PrenormIndex::Range {
                    start: None::<usize>,
                    end: Some((self.0.end + 1) as usize),
                }
            }),
    {
        let end = self.0.end;
        if end == usize::MAX {
            PrenormIndex::InclusiveToMax { start: None }
        } else {
            PrenormIndex::Range { start: None, end: Some(end + 1) }
        }
    }
}

/// The shape of a resolved span, which decides what a consumer materializes
/// from it: a single element, a fixed-length region, or a tail slice.
#[derive(Debug, Clone, Copy, PartialEq, Eq, Structural)]
pub enum IndexKind {
    Range,
    Index,
    RangeFrom,
}

/// A resolved span: a concrete start, a kind, and a saturated length.
///
/// For a span with an unbounded end (`IndexKind::RangeFrom`) the stored
/// length is the saturation sentinel `usize::MAX - start` rather than a true
/// length, so that `start + saturated_len` never overflows.
#[derive(Debug, Clone, Copy, PartialEq, Eq, Structural)]
pub struct IndexArgument {
    pub start: usize,
    pub index_kind: IndexKind,
    pub saturated_len: usize,
}

impl IndexArgument {
    /// Well-formedness: the saturated end fits the index type, and a single
    /// index always has length 1.  Every span built by the resolver is
    /// well-formed.
    pub open spec fn wf(self) -> bool {
        &&& self.start + self.saturated_len <= usize::MAX
        &&& (self.index_kind is Index ==> self.saturated_len == 1)
    }

    /// The exclusive end of this span, saturated to `usize::MAX` for a span
    /// with an unbounded end.
    pub open spec fn spec_saturated_end(self) -> int {
        self.start + self.saturated_len
    }

    /// The candidate bounded end this span contributes to
    /// `max_bounded_end`: for an unbounded-end span only the start needs a
    /// bounds check, so the start is its candidate.
    pub open spec fn spec_candidate_end(self) -> int {
        if self.index_kind is RangeFrom {
            self.start as int
        } else {
            self.start + self.saturated_len
        }
    }

    /// Whether this span and `other` share at least one element.
    pub open spec fn spec_intersects(self, other: IndexArgument) -> bool {
        vstd::math::max(self.start as int, other.start as int)
            < vstd::math::min(self.spec_saturated_end(), other.spec_saturated_end())
    }

    /// The all-zero sentinel span used to pre-fill buffers before
    /// resolution: an empty range at position 0.
    pub fn empty() -> (r: Self)
        ensures
            r == (IndexArgument { start: 0, index_kind: IndexKind::Range, saturated_len: 0 }),
    {
        Self { start: 0, index_kind: IndexKind::Range, saturated_len: 0 }
    }

    /// Whether this span intersects another one.  The test is symmetric.
    pub(crate) fn intersects(&self, other: &IndexArgument) -> (r: bool)
        requires
            self.wf(),
            other.wf(),
        ensures
            r == self.spec_intersects(*other),
    {
        let start = if self.start >= other.start {
            self.start
        } else {
            other.start
        };
        let self_end = self.saturated_end();
        let other_end = other.saturated_end();
        let end = if self_end <= other_end {
            self_end
        } else {
            other_end
        };
        start < end
    }

    /// The kind tag of this span.
    pub fn index_kind(&self) -> (r: IndexKind)
        ensures
            r == self.index_kind,
    {
        self.index_kind
    }

    /// The span's length, with 0 standing in for an unbounded end.
    pub fn len_else_zero(&self) -> (r: usize)
        ensures
            r == (if self.index_kind is RangeFrom { 0usize } else { self.saturated_len }),
    {
        if let IndexKind::RangeFrom = self.index_kind {
            0
        } else {
            self.saturated_len
        }
    }

    /// The span's start.
    pub fn start(&self) -> (r: usize)
        ensures
            r == self.start,
    {
        self.start
    }

    /// The exclusive end of this span, or `None` for an unbounded end.
    pub fn end(&self) -> (r: Option<usize>)
        requires
            self.wf(),
        ensures
            r == (if self.index_kind is RangeFrom {
                None::<usize>
            } else {
                Some(self.spec_saturated_end() as usize)
            }),
    {
        if let IndexKind::RangeFrom = self.index_kind {
            None
        } else {
            Some(self.saturated_end())
        }
    }

    /// The exclusive end of this span, saturated to `usize::MAX` when the
    /// end is unbounded.
    pub fn saturated_end(&self) -> (r: usize)
        requires
            self.wf(),
        ensures
            r == self.spec_saturated_end(),
    {
        self.start + self.saturated_len
    }
}

/// Saturating subtraction on mathematical integers.
pub open spec fn spec_saturating_sub(l: int, r: int) -> int {
    if l < r {
        0
    } else {
        l - r
    }
}

/// The model of resolving the descriptor at position `i` of `s`: either the
/// resolved span or the error the resolver reports there.
///
/// The start of a range descriptor without an explicit start is the previous
/// descriptor's declared end (an error if that end is unbounded), or 0 at
/// the first position.  The end of a range descriptor without an explicit
/// end is the next descriptor's declared start (an error if absent or
/// before the current start), or unbounded at the last position.
pub open spec fn spec_resolve(s: Seq<PrenormIndex>, i: int) -> Result<IndexArgument, Error>
    recommends
        0 <= i < s.len(),
{
    let ci = i as u16;
    match s[i] {
        PrenormIndex::Index(start) => if start == usize::MAX {
            Err(Error::UsizeMaxIndex { current_index: ci })
        } else {
            Ok(IndexArgument { start, index_kind: IndexKind::Index, saturated_len: 1 })
        },
        PrenormIndex::InclusiveToMax { .. } => Err(
            Error::InclusiveUptoUsizeMax { current_index: ci },
        ),
        PrenormIndex::Range { start: ostart, end: oend } => {
            let start_r: Result<int, Error> = match ostart {
                Some(st) => Ok(st as int),
                None => if i > 0 {
                    match prenorm_end(s[i - 1]) {
                        Some(pe) => Ok(pe),
                        None => Err(Error::PrevEndIsUnbounded { current_index: ci }),
                    }
                } else {
                    Ok(0)
                },
            };
            match start_r {
                Err(e) => Err(e),
                Ok(start) => match oend {
                    Some(e) => Ok(
                        IndexArgument {
                            start: start as usize,
                            index_kind: IndexKind::Range,
                            saturated_len: spec_saturating_sub(e as int, start) as usize,
                        },
                    ),
                    None => if i + 1 < s.len() {
                        match prenorm_start(s[i + 1]) {
                            None => Err(Error::NextStartIsUnbounded { current_index: ci }),
                            Some(ns) => if (ns as int) < start {
                                Err(Error::NextStartIsLessThanCurrent { current_index: ci })
                            } else {
                                Ok(
                                    IndexArgument {
                                        start: start as usize,
                                        index_kind: IndexKind::Range,
                                        saturated_len: (ns - start) as usize,
                                    },
                                )
                            },
                        }
                    } else {
                        Ok(
                            IndexArgument {
                                start: start as usize,
                                index_kind: IndexKind::RangeFrom,
                                saturated_len: (usize::MAX - start) as usize,
                            },
                        )
                    },
                },
            }
        },
    }
}

/// The span resolved at position `i`, when resolution succeeds there.
pub open spec fn spec_span(s: Seq<PrenormIndex>, i: int) -> IndexArgument {
    match spec_resolve(s, i) {
        Ok(ia) => ia,
        Err(_) => IndexArgument { start: 0, index_kind: IndexKind::Range, saturated_len: 0 },
    }
}

/// Whether resolution succeeds at every position before `n`.
pub open spec fn spec_resolve_ok_upto(s: Seq<PrenormIndex>, n: int) -> bool {
    forall|j: int| 0 <= j < n ==> (#[trigger] spec_resolve(s, j)) is Ok
}

/// The first `n` resolved spans, in descriptor order.
pub open spec fn spec_spans(s: Seq<PrenormIndex>, n: int) -> Seq<IndexArgument> {
    Seq::new(n as nat, |j: int| spec_span(s, j))
}

/// One step of the statistics accumulator: the maximum absorbs the new
/// span's candidate end, and sortedness demands that the span start at or
/// after the maximum that preceded it.
pub open spec fn spec_step_stats(st: IndexArgumentStats, ia: IndexArgument) -> IndexArgumentStats {
    IndexArgumentStats {
        max_bounded_end: if ia.spec_candidate_end() > st.max_bounded_end {
            ia.spec_candidate_end() as usize
        } else {
            st.max_bounded_end
        },
        are_sorted: st.are_sorted && st.max_bounded_end <= ia.start,
    }
}

/// The statistics after resolving the first `n` positions of `s`, starting
/// from the fresh accumulator.
pub open spec fn spec_stats(s: Seq<PrenormIndex>, n: int) -> IndexArgumentStats
    decreases n,
{
    if n <= 0 {
        IndexArgumentStats { max_bounded_end: 0, are_sorted: true }
    } else {
        spec_step_stats(spec_stats(s, n - 1), spec_span(s, n - 1))
    }
}

/// The precondition under which the resolver can look up the previous
/// descriptor's end without overflow: a single index at `usize::MAX` one
/// position earlier would have an unrepresentable end (and is itself always
/// rejected when resolved, so a left-to-right pass never encounters this).
pub open spec fn spec_prev_end_fits(s: Seq<PrenormIndex>, i: int) -> bool {
    (s[i] matches PrenormIndex::Range { start: None, .. } && i > 0) ==> (s[i
        - 1] matches PrenormIndex::Index(v) ==> v < usize::MAX)
}

/// Facts about a span the model resolved successfully: it is well-formed,
/// and a span with an unbounded end can only arise at the last position.
///
/// The hypothesis `spec_resolve_ok_upto(s, i + 1)` matters: it rules out a
/// single index at `usize::MAX` just before position `i`, whose declared
/// end would not fit the index type.
pub proof fn lemma_span_wf(s: Seq<PrenormIndex>, i: int)
    requires
        0 <= i < s.len(),
        spec_resolve_ok_upto(s, i + 1),
    ensures
        spec_span(s, i).wf(),
        spec_span(s, i).index_kind is RangeFrom ==> i == s.len() - 1,
{
    assert(spec_resolve(s, i) is Ok);
    if i > 0 {
        assert(spec_resolve(s, i - 1) is Ok);
    }
}

impl IndexArgument {
    /// Resolves the descriptor at `current_index`, threading the statistics
    /// accumulator through.  Returns exactly what the model
    /// [`spec_resolve`] says, and on success a well-formed span together
    /// with the stepped statistics.
    pub fn from_prenorm(
        prenorm: &[PrenormIndex],
        current_index: u16,
        stats: IndexArgumentStats,
    ) -> (r: Result<(Self, IndexArgumentStats), Error>)
        requires
            (current_index as int) < prenorm@.len(),
            spec_prev_end_fits(prenorm@, current_index as int),
        ensures
            match r {
                Ok(pair) => {
                    &&& spec_resolve(prenorm@, current_index as int) == Ok::<
                        IndexArgument,
                        Error,
                    >(pair.0)
                    &&& pair.0.wf()
                    &&& pair.1 == spec_step_stats(stats, pair.0)
                },
                Err(e) => spec_resolve(prenorm@, current_index as int) == Err::<
                    IndexArgument,
                    Error,
                >(e),
            },
    {
        let i = current_index as usize;

        let (this, candidate_max_end): (IndexArgument, usize) = match prenorm[i] {
            PrenormIndex::Index(start) => {
                if start == usize::MAX {
                    return Err(Error::UsizeMaxIndex { current_index });
                }
                (
                    IndexArgument { start, index_kind: IndexKind::Index, saturated_len: 1 },
                    start + 1,
                )
            },
            PrenormIndex::Range { start: ostart, end: oend } => {
                let start: usize = match ostart {
                    Some(st) => st,
                    None => if i > 0 {
                        let prev = prenorm[i - 1];
                        match prev.end() {
                            Some(prev_end) => prev_end,
                            None => {
                                return Err(Error::PrevEndIsUnbounded { current_index });
                            },
                        }
                    } else {
                        // The first descriptor in the list, with an
                        // unbounded start.
                        0
                    },
                };
                match oend {
                    Some(end) => {
                        let len = crate::std_const_fns::usize_m::saturating_sub(end, start);
                        (
                            IndexArgument {
                                start,
                                index_kind: IndexKind::Range,
                                saturated_len: len,
                            },
                            start + len,
                        )
                    },
                    None => if i + 1 < prenorm.len() {
                        let next = prenorm[i + 1];
                        match next.start() {
                            None => {
                                return Err(Error::NextStartIsUnbounded { current_index });
                            },
                            Some(next_start) => {
                                if next_start < start {
                                    return Err(
                                        Error::NextStartIsLessThanCurrent { current_index },
                                    );
                                }
                                (
                                    IndexArgument {
                                        start,
                                        index_kind: IndexKind::Range,
                                        saturated_len: next_start - start,
                                    },
                                    next_start,
                                )
                            },
                        }
                    } else {
                        // The last descriptor in the list, with an unbounded
                        // end: only its start needs a bounds check.
                        (
                            IndexArgument {
                                start,
                                index_kind: IndexKind::RangeFrom,
                                saturated_len: usize::MAX - start,
                            },
                            start,
                        )
                    },
                }
            },
            PrenormIndex::InclusiveToMax { .. } => {
                return Err(Error::InclusiveUptoUsizeMax { current_index });
            },
        };

        let prev_max = stats.max_bounded_end;
        let new_stats = IndexArgumentStats {
            max_bounded_end: crate::std_const_fns::usize_m::max(
                stats.max_bounded_end,
                candidate_max_end,
            ),
            are_sorted: stats.are_sorted && prev_max <= this.start,
        };
        Ok((this, new_stats))
    }

    /// Resolves a whole descriptor list in one left-to-right pass, aborting
    /// at the first error.  On success the spans and statistics are exactly
    /// the model's [`spec_spans`] and [`spec_stats`]; on failure the error
    /// is the one the model reports at the first failing position.
    pub fn many_from_prenorm(prenorm: &[PrenormIndex]) -> (r: Result<
        IndexArgumentsAndStats<Vec<Self>>,
        Error,
    >)
        requires
            prenorm@.len() <= u16::MAX as int + 1,
        ensures
            match r {
                Ok(iaas) => {
                    &&& spec_resolve_ok_upto(prenorm@, prenorm@.len() as int)
                    &&& iaas.ind_args@ == spec_spans(prenorm@, prenorm@.len() as int)
                    &&& iaas.stats == spec_stats(prenorm@, prenorm@.len() as int)
                    &&& forall|j: int|
                        0 <= j < prenorm@.len() ==> (#[trigger] iaas.ind_args@[j]).wf()
                },
                Err(e) => exists|k: int|
                    {
                        &&& 0 <= k < prenorm@.len()
                        &&& spec_resolve_ok_upto(prenorm@, k)
                        &&& #[trigger] spec_resolve(prenorm@, k) == Err::<IndexArgument, Error>(e)
                    },
            },
    {
        let ghost s = prenorm@;
        let mut ind_args: Vec<IndexArgument> = Vec::new();
        let mut stats = IndexArgumentStats { max_bounded_end: 0, are_sorted: true };
        let mut i: usize = 0;
        while i < prenorm.len()
            invariant
                i <= s.len(),
                s == prenorm@,
                s.len() <= u16::MAX as int + 1,
                spec_resolve_ok_upto(s, i as int),
                ind_args@ == spec_spans(s, i as int),
                forall|j: int| 0 <= j < i ==> (#[trigger] ind_args@[j]).wf(),
                stats == spec_stats(s, i as int),
            decreases s.len() - i,
        {
            proof {
                // A left-to-right pass never needs the end of a descriptor
                // that was itself rejected, so the previous single index
                // cannot be usize::MAX here.
                if s[i as int] matches PrenormIndex::Range { start: None, .. } && i > 0 {
                    assert(spec_resolve(s, i as int - 1) is Ok);
                }
            }
            match IndexArgument::from_prenorm(prenorm, i as u16, stats) {
                Ok((ia, nstats)) => {
                    ind_args.push(ia);
                    stats = nstats;
                    proof {
                        assert(ind_args@ =~= spec_spans(s, i + 1));
                    }
                },
                Err(e) => {
                    proof {
                        assert(spec_resolve_ok_upto(s, i as int) && spec_resolve(s, i as int)
                            == Err::<IndexArgument, Error>(e));
                    }
                    return Err(e);
                },
            }
            i = i + 1;
        }
        Ok(IndexArgumentsAndStats { stats, ind_args })
    }
}

} // verus!
