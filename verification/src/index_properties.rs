//! Aggregate statistics over one resolution pass, and the disjointness
//! checker that consumes them.

use vstd::prelude::*;

use crate::are_disjoint::AreAllDisjoint;
use crate::error::{Error, ErrorTuple};
use crate::index_argument::IndexArgument;

verus! {

/// Statistics accumulated left to right over one resolution pass.
#[derive(Debug, Copy, Clone, PartialEq, Eq, Structural)]
pub struct IndexArgumentStats {
    /// Running maximum of every resolved span's candidate bounded end.  For
    /// a span with an unbounded end only the start needs a bounds check, so
    /// the start is its candidate end.
    pub max_bounded_end: usize,
    /// True iff every span processed so far started at or after the running
    /// `max_bounded_end` that preceded it.  This is stronger than pairwise
    /// disjointness, so a sorted-by-construction list never needs the
    /// pairwise scan.
    pub are_sorted: bool,
}

impl IndexArgumentStats {
    /// The state of the accumulator before any descriptor was processed.
    pub fn new() -> (r: Self)
        ensures
            r == (IndexArgumentStats { max_bounded_end: 0, are_sorted: true }),
    {
        Self { max_bounded_end: 0, are_sorted: true }
    }
}

/// The successful outcome of a resolution pass: the resolved spans together
/// with their statistics.
#[derive(Debug)]
pub struct IndexArgumentsAndStats<IA> {
    pub stats: IndexArgumentStats,
    /// The resolved spans, in descriptor order.
    pub ind_args: IA,
}

/// Everything a caller of the whole pipeline may want to keep: the final
/// outcome, its flattened form, and the resolved spans with statistics.
#[derive(Debug)]
pub struct ComputedConstants<IA> {
    pub err: Result<(), Error>,
    pub err_tuple: ErrorTuple,
    pub stats: IndexArgumentStats,
    /// The resolved spans, in descriptor order.
    pub ind_args: IA,
}

/// The checker's finding for one resolved span list.
#[derive(Debug)]
pub struct IndexProperties {
    pub are_disjoint: AreAllDisjoint<Error>,
}

/// No two spans of `args` share an element.
pub open spec fn spec_all_disjoint(args: Seq<IndexArgument>) -> bool {
    forall|a: int, b: int|
        0 <= b < a < args.len() ==> !(#[trigger] args[a].spec_intersects(args[b]))
}

/// No pair that the pairwise scan enumerates strictly before the pair
/// `(i, j)` intersects.  The scan visits pairs `(a, b)` with `b < a`, outer
/// index first: `(a1, b1)` comes before `(a2, b2)` iff `a1 < a2`, or
/// `a1 == a2` and `b1 < b2`.
pub open spec fn spec_no_overlap_before(args: Seq<IndexArgument>, i: int, j: int) -> bool {
    forall|a: int, b: int|
        0 <= b < a < args.len() && (a < i || (a == i && b < j)) ==> !(#[trigger] args[
            a
        ].spec_intersects(args[b]))
}

/// The running maximum never decreases as more positions are processed,
/// and sortedness can only be lost, never regained.
pub proof fn lemma_stats_monotonic(s: Seq<crate::index_argument::PrenormIndex>, m: int, n: int)
    requires
        0 <= m <= n,
    ensures
        crate::index_argument::spec_stats(s, m).max_bounded_end
            <= crate::index_argument::spec_stats(s, n).max_bounded_end,
        crate::index_argument::spec_stats(s, n).are_sorted
            ==> crate::index_argument::spec_stats(s, m).are_sorted,
    decreases n - m,
{
    if m < n {
        lemma_stats_monotonic(s, m, n - 1);
    }
}

/// Every processed span's candidate bounded end is dominated by the final
/// running maximum: one comparison of `max_bounded_end` against a slice
/// length covers all spans.
pub proof fn lemma_candidate_le_max(s: Seq<crate::index_argument::PrenormIndex>, j: int, n: int)
    requires
        0 <= j < n,
    ensures
        crate::index_argument::spec_span(s, j).spec_candidate_end()
            <= crate::index_argument::spec_stats(s, n).max_bounded_end,
{
    lemma_stats_monotonic(s, j + 1, n);
}

/// While the accumulated statistics still say "sorted", every processed
/// span started at or after the running maximum that preceded it.
pub proof fn lemma_sorted_step(s: Seq<crate::index_argument::PrenormIndex>, k: int, n: int)
    requires
        0 <= k < n,
        crate::index_argument::spec_stats(s, n).are_sorted,
    ensures
        crate::index_argument::spec_stats(s, k).max_bounded_end
            <= crate::index_argument::spec_span(s, k).start,
    decreases n - k,
{
    if k + 1 < n {
        lemma_stats_monotonic(s, k + 1, n);
        lemma_sorted_step(s, k, k + 1);
    }
}

/// The pairwise scan: visits pairs `(i, j)` with `j < i` in `i`-then-`j`
/// order and returns the first intersecting pair found, or `None` when no
/// two spans intersect.
fn find_first_overlap(ind_args: &[IndexArgument]) -> (r: Option<(usize, usize)>)
    requires
        forall|k: int| 0 <= k < ind_args@.len() ==> (#[trigger] ind_args@[k]).wf(),
    ensures
        match r {
            Some(pair) => {
                &&& pair.1 < pair.0 && (pair.0 as int) < ind_args@.len()
                &&& ind_args@[pair.0 as int].spec_intersects(ind_args@[pair.1 as int])
                &&& spec_no_overlap_before(ind_args@, pair.0 as int, pair.1 as int)
            },
            None => spec_all_disjoint(ind_args@),
        },
{
    let n = ind_args.len();
    let mut i: usize = 0;
    while i < n
        invariant
            n == ind_args@.len(),
            i <= n,
            forall|k: int| 0 <= k < ind_args@.len() ==> (#[trigger] ind_args@[k]).wf(),
            spec_no_overlap_before(ind_args@, i as int, 0),
        decreases n - i,
    {
        let mut j: usize = 0;
        while j < i
            invariant
                n == ind_args@.len(),
                j <= i < n,
                forall|k: int| 0 <= k < ind_args@.len() ==> (#[trigger] ind_args@[k]).wf(),
                spec_no_overlap_before(ind_args@, i as int, j as int),
            decreases i - j,
        {
            if ind_args[i].intersects(&ind_args[j]) {
                return Some((i, j));
            }
            j = j + 1;
        }
        i = i + 1;
    }
    None
}

impl IndexProperties {
    /// Runs the disjointness check for one resolved span list.
    ///
    /// If the caller declared no disjointness requirement, all checking is
    /// skipped and the finding is unconditionally negative (with
    /// placeholder evidence): callers that do not need the guarantee do not
    /// pay for it, and a negative finding is the safe default.  Otherwise a
    /// list whose statistics say "sorted" is disjoint by construction; only
    /// the remaining case runs the pairwise scan, whose first intersecting
    /// pair — in `i`-then-`j` enumeration order — becomes the evidence.
    pub fn new(
        ind_args: &[IndexArgument],
        stats: &IndexArgumentStats,
        expected: AreAllDisjoint,
    ) -> (r: Self)
        requires
            forall|k: int| 0 <= k < ind_args@.len() ==> (#[trigger] ind_args@[k]).wf(),
            ind_args@.len() <= u16::MAX as int + 1,
        ensures
            expected is No ==> r.are_disjoint == AreAllDisjoint::No(
                Error::OverlappingIndexArgs { left: u16::MAX, right: u16::MAX },
            ),
            expected is Yes && stats.are_sorted ==> r.are_disjoint == AreAllDisjoint::<
                Error,
            >::Yes,
            expected is Yes && !stats.are_sorted ==> match r.are_disjoint {
                AreAllDisjoint::Yes => spec_all_disjoint(ind_args@),
                AreAllDisjoint::No(e) => {
                    &&& e is OverlappingIndexArgs
                    &&& e->OverlappingIndexArgs_left < e->OverlappingIndexArgs_right
                    &&& (e->OverlappingIndexArgs_right as int) < ind_args@.len()
                    &&& ind_args@[e->OverlappingIndexArgs_right as int].spec_intersects(
                        ind_args@[e->OverlappingIndexArgs_left as int],
                    )
                    &&& spec_no_overlap_before(
                        ind_args@,
                        e->OverlappingIndexArgs_right as int,
                        e->OverlappingIndexArgs_left as int,
                    )
                },
            },
    {
        let are_disjoint: AreAllDisjoint<Error> = match expected {
            AreAllDisjoint::Yes => if stats.are_sorted {
                AreAllDisjoint::Yes
            } else {
                match find_first_overlap(ind_args) {
                    Some((i, j)) => AreAllDisjoint::No(
                        Error::OverlappingIndexArgs { left: j as u16, right: i as u16 },
                    ),
                    None => AreAllDisjoint::Yes,
                }
            },
            AreAllDisjoint::No(_) => expected.with_dummy_error(),
        };
        IndexProperties { are_disjoint }
    }
}

/// The whole validation pipeline: resolve every descriptor left to right
/// (aborting at the first resolution error), run the disjointness checker,
/// then reconcile its finding with the caller's expectation.  Any failure
/// is terminal; there are no retries.
///
/// On success the spans and statistics are exactly the model's, and — when
/// the caller demanded disjointness — no two spans share an element.  On
/// failure the error is either the model's error at the first failing
/// position, or the overlap evidence: the first intersecting pair in the
/// pairwise scan's enumeration order.
pub fn resolve_and_check(
    prenorm: &[crate::index_argument::PrenormIndex],
    expected: AreAllDisjoint,
) -> (r: Result<IndexArgumentsAndStats<Vec<IndexArgument>>, Error>)
    requires
        prenorm@.len() <= u16::MAX as int + 1,
    ensures
        match r {
            Ok(iaas) => {
                &&& crate::index_argument::spec_resolve_ok_upto(prenorm@, prenorm@.len() as int)
                &&& iaas.ind_args@ == crate::index_argument::spec_spans(
                    prenorm@,
                    prenorm@.len() as int,
                )
                &&& iaas.stats == crate::index_argument::spec_stats(
                    prenorm@,
                    prenorm@.len() as int,
                )
                &&& forall|j: int| 0 <= j < prenorm@.len() ==> (#[trigger] iaas.ind_args@[j]).wf()
                &&& expected is Yes ==> spec_all_disjoint(iaas.ind_args@)
            },
            Err(e) => {
                ||| exists|k: int|
                    {
                        &&& 0 <= k < prenorm@.len()
                        &&& crate::index_argument::spec_resolve_ok_upto(prenorm@, k)
                        &&& #[trigger] crate::index_argument::spec_resolve(prenorm@, k) == Err::<
                            IndexArgument,
                            Error,
                        >(e)
                    }
                ||| {
                    let args = crate::index_argument::spec_spans(prenorm@, prenorm@.len() as int);
                    &&& crate::index_argument::spec_resolve_ok_upto(
                        prenorm@,
                        prenorm@.len() as int,
                    )
                    &&& expected is Yes
                    &&& !crate::index_argument::spec_stats(
                        prenorm@,
                        prenorm@.len() as int,
                    ).are_sorted
                    &&& e is OverlappingIndexArgs
                    &&& e->OverlappingIndexArgs_left < e->OverlappingIndexArgs_right
                    &&& (e->OverlappingIndexArgs_right as int) < args.len()
                    &&& args[e->OverlappingIndexArgs_right as int].spec_intersects(
                        args[e->OverlappingIndexArgs_left as int],
                    )
                    &&& spec_no_overlap_before(
                        args,
                        e->OverlappingIndexArgs_right as int,
                        e->OverlappingIndexArgs_left as int,
                    )
                }
            },
        },
{
    let iaas = match IndexArgument::many_from_prenorm(prenorm) {
        Ok(x) => x,
        Err(e) => {
            return Err(e);
        },
    };
    let props = IndexProperties::new(iaas.ind_args.as_slice(), &iaas.stats, expected);
    match props.are_disjoint.check_is_expected(&expected) {
        Ok(()) => {
            proof {
                if expected is Yes && iaas.stats.are_sorted {
                    crate::laws::lemma_sorted_implies_disjoint(prenorm@);
                }
            }
            Ok(iaas)
        },
        Err(e) => Err(e),
    }
}

/// Runs the whole pipeline and keeps everything a consumer may want: the
/// outcome, its flattened form, and — on success — the resolved spans
/// with their statistics.  On failure the span list is empty and the
/// statistics are the fresh accumulator.
pub fn compute_constants(
    prenorm: &[crate::index_argument::PrenormIndex],
    expected: AreAllDisjoint,
) -> (r: ComputedConstants<Vec<IndexArgument>>)
    requires
        prenorm@.len() <= u16::MAX as int + 1,
    ensures
        r.err_tuple == (match r.err {
            Ok(()) => crate::error::ErrorTuple {
                kind: crate::error::ErrorKind::OK,
                first: 0,
                second: 0,
            },
            Err(e) => e.spec_to_tuple(),
        }),
        match r.err {
            Ok(()) => {
                &&& crate::index_argument::spec_resolve_ok_upto(prenorm@, prenorm@.len() as int)
                &&& r.ind_args@ == crate::index_argument::spec_spans(
                    prenorm@,
                    prenorm@.len() as int,
                )
                &&& r.stats == crate::index_argument::spec_stats(prenorm@, prenorm@.len() as int)
                &&& expected is Yes ==> spec_all_disjoint(r.ind_args@)
            },
            Err(e) => {
                &&& r.ind_args@.len() == 0
                &&& r.stats == (IndexArgumentStats { max_bounded_end: 0, are_sorted: true })
                &&& {
                    ||| exists|k: int|
                        {
                            &&& 0 <= k < prenorm@.len()
                            &&& crate::index_argument::spec_resolve_ok_upto(prenorm@, k)
                            &&& #[trigger] crate::index_argument::spec_resolve(prenorm@, k)
                                == Err::<IndexArgument, Error>(e)
                        }
                    ||| (expected is Yes && e is OverlappingIndexArgs)
                }
            },
        },
{
    let (err, stats, ind_args): (Result<(), Error>, IndexArgumentStats, Vec<IndexArgument>) =
        match resolve_and_check(prenorm, expected) {
            Ok(iaas) => (Ok(()), iaas.stats, iaas.ind_args),
            Err(e) => (Err(e), IndexArgumentStats::new(), Vec::new()),
        };
    let err_tuple = crate::error::result_to_tuple(err);
    ComputedConstants { err, err_tuple, stats, ind_args }
}

} // verus!
