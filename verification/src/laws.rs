//! Proved properties of the resolver, the statistics and the checker.
//!
//! Each public proof function here states one law of the engine over the
//! same spec functions that the executable functions' contracts use.

use vstd::prelude::*;

use crate::error::Error;
use crate::index_argument::{
    prenorm_end, prenorm_start, spec_resolve, spec_resolve_ok_upto, spec_saturating_sub,
    spec_span, spec_spans, spec_stats, IndexArgument, IndexKind, PrenormIndex,
};
use crate::index_properties::{
    lemma_candidate_le_max, lemma_sorted_step, lemma_stats_monotonic, spec_all_disjoint,
};

verus! {

/// A descriptor whose resolution depends on nothing but itself: a single
/// index below the numeric maximum, or a range with both bounds explicit.
pub open spec fn spec_is_explicit(p: PrenormIndex) -> bool {
    match p {
        PrenormIndex::Index(i) => i < usize::MAX,
        PrenormIndex::Range { start, end } => start is Some && end is Some,
        PrenormIndex::InclusiveToMax { .. } => false,
    }
}

/// Every descriptor of the sequence is explicit.
pub open spec fn spec_all_explicit(s: Seq<PrenormIndex>) -> bool {
    forall|i: int| 0 <= i < s.len() ==> spec_is_explicit(#[trigger] s[i])
}

/// The span an explicit descriptor resolves to, independent of its
/// position and neighbours.
pub open spec fn spec_explicit_span(p: PrenormIndex) -> IndexArgument {
    match p {
        PrenormIndex::Index(st) => IndexArgument {
            start: st,
            index_kind: IndexKind::Index,
            saturated_len: 1,
        },
        PrenormIndex::Range { start: Some(st), end: Some(e) } => IndexArgument {
            start: st,
            index_kind: IndexKind::Range,
            saturated_len: spec_saturating_sub(e as int, st as int) as usize,
        },
        _ => IndexArgument { start: 0, index_kind: IndexKind::Range, saturated_len: 0 },
    }
}

/// The candidate bounded end an explicit descriptor contributes.
pub open spec fn spec_explicit_candidate(p: PrenormIndex) -> int {
    spec_explicit_span(p).spec_candidate_end()
}

/// The maximum candidate bounded end over a sequence of explicit
/// descriptors, with 0 for the empty sequence.
pub open spec fn spec_max_candidate(s: Seq<PrenormIndex>) -> int
    decreases s.len(),
{
    if s.len() == 0 {
        0
    } else {
        vstd::math::max(spec_max_candidate(s.drop_last()), spec_explicit_candidate(s.last()))
    }
}

/// An explicit descriptor resolves, at any position of any sequence, to
/// the span determined by the descriptor alone.
pub proof fn lemma_explicit_resolves_pointwise(s: Seq<PrenormIndex>, i: int)
    requires
        0 <= i < s.len(),
        spec_is_explicit(s[i]),
    ensures
        spec_resolve(s, i) == Ok::<IndexArgument, Error>(spec_explicit_span(s[i])),
{
}

proof fn lemma_max_candidate_nonneg(s: Seq<PrenormIndex>)
    ensures
        spec_max_candidate(s) >= 0,
    decreases s.len(),
{
    if s.len() > 0 {
        lemma_max_candidate_nonneg(s.drop_last());
    }
}

proof fn lemma_max_candidate_in_usize(s: Seq<PrenormIndex>)
    requires
        spec_all_explicit(s),
    ensures
        0 <= spec_max_candidate(s) <= usize::MAX,
    decreases s.len(),
{
    if s.len() > 0 {
        assert(spec_all_explicit(s.drop_last())) by {
            assert(forall|i: int|
                0 <= i < s.drop_last().len() ==> #[trigger] s.drop_last()[i] == s[i]);
        }
        lemma_max_candidate_in_usize(s.drop_last());
        assert(spec_is_explicit(s.last()));
    }
}

proof fn lemma_max_candidate_bounds(s: Seq<PrenormIndex>, x: PrenormIndex)
    requires
        s.contains(x),
    ensures
        spec_explicit_candidate(x) <= spec_max_candidate(s),
    decreases s.len(),
{
    let k = choose|k: int| 0 <= k < s.len() && s[k] == x;
    if k == s.len() - 1 {
        assert(s.last() == x);
    } else {
        assert(s.drop_last()[k] == x);
        assert(s.drop_last().contains(x));
        lemma_max_candidate_bounds(s.drop_last(), x);
    }
}

proof fn lemma_max_candidate_attained(s: Seq<PrenormIndex>)
    requires
        spec_max_candidate(s) != 0,
    ensures
        exists|k: int|
            0 <= k < s.len() && spec_explicit_candidate(#[trigger] s[k]) == spec_max_candidate(s),
    decreases s.len(),
{
    let m = spec_max_candidate(s);
    if spec_explicit_candidate(s.last()) == m {
        assert(spec_explicit_candidate(s[s.len() - 1]) == m);
    } else {
        lemma_max_candidate_attained(s.drop_last());
        let k = choose|k: int|
            0 <= k < s.drop_last().len() && spec_explicit_candidate(#[trigger] s.drop_last()[k])
                == spec_max_candidate(s.drop_last());
        assert(s.drop_last()[k] == s[k]);
        assert(spec_explicit_candidate(s[k]) == m);
    }
}

proof fn lemma_max_candidate_le(s1: Seq<PrenormIndex>, s2: Seq<PrenormIndex>)
    requires
        s1.to_multiset() == s2.to_multiset(),
    ensures
        spec_max_candidate(s1) <= spec_max_candidate(s2),
{
    lemma_max_candidate_nonneg(s2);
    if spec_max_candidate(s1) != 0 {
        lemma_max_candidate_attained(s1);
        let k = choose|k: int|
            0 <= k < s1.len() && spec_explicit_candidate(#[trigger] s1[k]) == spec_max_candidate(
                s1,
            );
        s1.to_multiset_ensures();
        s2.to_multiset_ensures();
        assert(s1.contains(s1[k]));
        assert(s1.to_multiset().count(s1[k]) > 0);
        assert(s2.contains(s1[k]));
        lemma_max_candidate_bounds(s2, s1[k]);
    }
}

/// The accumulated maximum over a fully explicit prefix is exactly the
/// maximum candidate end of the descriptors seen so far.
proof fn lemma_stats_is_max_candidate(s: Seq<PrenormIndex>, n: int)
    requires
        0 <= n <= s.len(),
        spec_all_explicit(s),
    ensures
        spec_stats(s, n).max_bounded_end == spec_max_candidate(s.take(n)),
    decreases n,
{
    if n > 0 {
        lemma_stats_is_max_candidate(s, n - 1);
        lemma_explicit_resolves_pointwise(s, n - 1);
        assert(s.take(n).drop_last() =~= s.take(n - 1));
        assert(s.take(n).last() == s[n - 1]);
        assert(spec_all_explicit(s.take(n))) by {
            assert(forall|i: int| 0 <= i < n ==> #[trigger] s.take(n)[i] == s[i]);
        }
        lemma_max_candidate_in_usize(s.take(n));
        lemma_max_candidate_in_usize(s.take(n - 1));
    }
}

/// Law: the final `max_bounded_end` is independent of descriptor order.
///
/// For two fully explicit descriptor sequences that are rearrangements of
/// one another, resolution succeeds at every position of both, and both
/// passes accumulate the same `max_bounded_end` — order influences
/// `are_sorted` and positional error indices, never the aggregate maximum.
/// Explicitness matters: rearranging descriptors with inferred bounds
/// changes what their neighbours supply.
pub proof fn lemma_max_bounded_end_order_independent(
    s1: Seq<PrenormIndex>,
    s2: Seq<PrenormIndex>,
)
    requires
        spec_all_explicit(s1),
        s1.to_multiset() == s2.to_multiset(),
    ensures
        spec_all_explicit(s2),
        spec_resolve_ok_upto(s1, s1.len() as int),
        spec_resolve_ok_upto(s2, s2.len() as int),
        spec_stats(s1, s1.len() as int).max_bounded_end == spec_stats(
            s2,
            s2.len() as int,
        ).max_bounded_end,
{
    s1.to_multiset_ensures();
    s2.to_multiset_ensures();
    assert forall|i: int| 0 <= i < s2.len() implies spec_is_explicit(#[trigger] s2[i]) by {
        assert(s2.contains(s2[i]));
        assert(s2.to_multiset().count(s2[i]) > 0);
        assert(s1.contains(s2[i]));
        let k = choose|k: int| 0 <= k < s1.len() && s1[k] == s2[i];
        assert(spec_is_explicit(s1[k]));
    }
    assert forall|j: int| 0 <= j < s1.len() implies (#[trigger] spec_resolve(s1, j)) is Ok by {
        lemma_explicit_resolves_pointwise(s1, j);
    }
    assert forall|j: int| 0 <= j < s2.len() implies (#[trigger] spec_resolve(s2, j)) is Ok by {
        lemma_explicit_resolves_pointwise(s2, j);
    }
    lemma_stats_is_max_candidate(s1, s1.len() as int);
    lemma_stats_is_max_candidate(s2, s2.len() as int);
    assert(s1.take(s1.len() as int) =~= s1);
    assert(s2.take(s2.len() as int) =~= s2);
    lemma_max_candidate_le(s1, s2);
    lemma_max_candidate_le(s2, s1);
}

/// Law: a span list whose statistics say "sorted" is pairwise disjoint —
/// the full scan, if run, would find no intersecting pair.
pub proof fn lemma_sorted_implies_disjoint(s: Seq<PrenormIndex>)
    requires
        spec_resolve_ok_upto(s, s.len() as int),
        spec_stats(s, s.len() as int).are_sorted,
    ensures
        spec_all_disjoint(spec_spans(s, s.len() as int)),
{
    let n = s.len() as int;
    let args = spec_spans(s, n);
    assert forall|a: int, b: int| 0 <= b < a < args.len() implies !(#[trigger] args[
        a
    ].spec_intersects(args[b])) by {
        crate::index_argument::lemma_span_wf(s, b);
        crate::index_argument::lemma_span_wf(s, a);
        // The earlier span's bounded end is dominated by the running
        // maximum, which sortedness places at or before the later start.
        lemma_candidate_le_max(s, b, a);
        lemma_sorted_step(s, a, n);
    }
}

/// Law: intersection of spans is symmetric — which of the two is presented
/// first cannot matter to whether an overlap is seen.
pub proof fn lemma_intersects_symmetric(a: IndexArgument, b: IndexArgument)
    ensures
        a.spec_intersects(b) == b.spec_intersects(a),
{
}

/// Law: overlap evidence survives swapping the two participants.
///
/// If two explicit descriptors at positions `p < q` resolve to
/// intersecting spans, then after exchanging the two descriptors the whole
/// sequence still resolves, the spans at `p` and `q` still intersect, and
/// the statistics cannot claim sortedness — so a check that demands
/// disjointness still reports an overlap.
pub proof fn lemma_overlap_evidence_symmetric(s: Seq<PrenormIndex>, p: int, q: int)
    requires
        spec_all_explicit(s),
        0 <= p < q < s.len(),
        spec_span(s, q).spec_intersects(spec_span(s, p)),
    ensures
        spec_all_explicit(s.update(p, s[q]).update(q, s[p])),
        spec_resolve_ok_upto(s.update(p, s[q]).update(q, s[p]), s.len() as int),
        spec_span(s.update(p, s[q]).update(q, s[p]), q).spec_intersects(
            spec_span(s.update(p, s[q]).update(q, s[p]), p),
        ),
        !spec_stats(s.update(p, s[q]).update(q, s[p]), s.len() as int).are_sorted,
{
    let t = s.update(p, s[q]).update(q, s[p]);
    assert(t.len() == s.len());
    assert forall|i: int| 0 <= i < t.len() implies spec_is_explicit(#[trigger] t[i]) by {
        if i != p && i != q {
            assert(t[i] == s[i]);
        }
    }
    assert forall|j: int| 0 <= j < t.len() implies (#[trigger] spec_resolve(t, j)) is Ok by {
        lemma_explicit_resolves_pointwise(t, j);
    }
    lemma_explicit_resolves_pointwise(t, p);
    lemma_explicit_resolves_pointwise(t, q);
    lemma_explicit_resolves_pointwise(s, p);
    lemma_explicit_resolves_pointwise(s, q);
    assert(spec_span(t, p) == spec_span(s, q));
    assert(spec_span(t, q) == spec_span(s, p));
    lemma_intersects_symmetric(spec_span(s, q), spec_span(s, p));
    if spec_stats(t, t.len() as int).are_sorted {
        lemma_sorted_implies_disjoint(t);
        let args = spec_spans(t, t.len() as int);
        assert(args[q] == spec_span(t, q));
        assert(args[p] == spec_span(t, p));
        assert(args[q].spec_intersects(args[p]));
        assert(false);
    }
}

/// Law: a bounded range whose end lies before its start resolves to a
/// length-0 span, not an error — the subtraction saturates.
pub proof fn lemma_saturating_range_tolerated(s: Seq<PrenormIndex>, i: int, st: usize, e: usize)
    requires
        0 <= i < s.len(),
        s[i] == (PrenormIndex::Range { start: Some(st), end: Some(e) }),
        e < st,
    ensures
        spec_resolve(s, i) == Ok::<IndexArgument, Error>(
            IndexArgument { start: st, index_kind: IndexKind::Range, saturated_len: 0 },
        ),
{
}

/// Law: the boundary shapes are rejected, each with its own error.
///
/// A single index at the numeric maximum, an inclusive range up to the
/// numeric maximum, a descriptor whose missing start meets an unbounded
/// end on its left, and a descriptor whose missing end meets an absent
/// start on its right are all rejected, with the positions recorded.
pub proof fn lemma_boundary_rejections(s: Seq<PrenormIndex>, i: int)
    requires
        0 <= i < s.len(),
    ensures
        s[i] == PrenormIndex::Index(usize::MAX) ==> spec_resolve(s, i) == Err::<
            IndexArgument,
            Error,
        >(Error::UsizeMaxIndex { current_index: i as u16 }),
        s[i] is InclusiveToMax ==> spec_resolve(s, i) == Err::<IndexArgument, Error>(
            Error::InclusiveUptoUsizeMax { current_index: i as u16 },
        ),
        (i > 0 && (s[i] matches PrenormIndex::Range { start: None, .. }) && prenorm_end(
            s[i - 1],
        ) is None) ==> spec_resolve(s, i) == Err::<IndexArgument, Error>(
            Error::PrevEndIsUnbounded { current_index: i as u16 },
        ),
        (i + 1 < s.len() && (s[i] matches PrenormIndex::Range { start: Some(_), end: None })
            && prenorm_start(s[i + 1]) is None) ==> spec_resolve(s, i) == Err::<
            IndexArgument,
            Error,
        >(Error::NextStartIsUnbounded { current_index: i as u16 }),
{
}

} // verus!
