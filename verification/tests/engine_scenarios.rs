use multindex::are_disjoint::AreAllDisjoint;
use multindex::error::{ErrorKind, ErrorTuple};
use multindex::index_argument::{IndexArgument, IndexKind, IntoPrenormIndex, PrenormIndex};
use multindex::index_properties::{
    compute_constants, resolve_and_check, IndexArgumentStats, IndexArgumentsAndStats,
    IndexProperties,
};
use multindex::slice_spans::{multiget_slices, span_slice};
use multindex::std_const_fns::{option_m, result_m, slice_m, usize_m};
use multindex::uniqueness::AreAllUnique;
use multindex::Error;

fn ix(i: usize) -> PrenormIndex {
    IntoPrenormIndex(i).call()
}

fn rg(r: std::ops::Range<usize>) -> PrenormIndex {
    IntoPrenormIndex(r).call()
}

fn rg_from(r: std::ops::RangeFrom<usize>) -> PrenormIndex {
    IntoPrenormIndex(r).call()
}

fn rg_to(r: std::ops::RangeTo<usize>) -> PrenormIndex {
    IntoPrenormIndex(r).call()
}

fn rg_full() -> PrenormIndex {
    IntoPrenormIndex(..).call()
}

fn rg_incl(r: std::ops::RangeInclusive<usize>) -> PrenormIndex {
    IntoPrenormIndex(r).call()
}

// Four single indices where the second and fourth coincide: resolution
// succeeds per element, and the scan reports the pair (1, 3).
#[test]
fn repeated_single_index_overlap() {
    let prenorm = [ix(0), ix(1), ix(2), ix(1)];
    let IndexArgumentsAndStats { stats, ind_args } =
        IndexArgument::many_from_prenorm(&prenorm).unwrap();
    assert!(!stats.are_sorted);
    let props = IndexProperties::new(&ind_args, &stats, AreAllDisjoint::Yes);
    assert_eq!(
        props.are_disjoint,
        AreAllDisjoint::No(Error::OverlappingIndexArgs { left: 1, right: 3 }),
    );
}

// An unbounded end directly followed by an unbounded start: resolving the
// left one asks for the absent next start, resolving the right one asks
// for the unbounded previous end.
#[test]
fn unbounded_end_meets_unbounded_start() {
    let prenorm = [rg_from(0..), rg_to(..10)];
    assert_eq!(
        IndexArgument::many_from_prenorm(&prenorm).unwrap_err(),
        Error::NextStartIsUnbounded { current_index: 0 },
    );
    assert_eq!(
        IndexArgument::from_prenorm(&prenorm, 1, IndexArgumentStats::new()).unwrap_err(),
        Error::PrevEndIsUnbounded { current_index: 1 },
    );
}

// A fully explicit sorted list: maximum 4, sorted, the check
// short-circuits to yes, and a backing slice of length 4 serves all three
// spans, the tail span being empty.
#[test]
fn sorted_explicit_sequence() {
    let prenorm = [rg(0..2), rg(2..4), rg_from(4..)];
    let IndexArgumentsAndStats { stats, ind_args } =
        IndexArgument::many_from_prenorm(&prenorm).unwrap();
    assert_eq!(stats.max_bounded_end, 4);
    assert!(stats.are_sorted);
    let props = IndexProperties::new(&ind_args, &stats, AreAllDisjoint::Yes);
    assert_eq!(props.are_disjoint, AreAllDisjoint::<Error>::Yes);

    let backing = [7u32, 11, 13, 17];
    let parts = multiget_slices(&backing, &prenorm).unwrap();
    assert_eq!(parts, vec![&[7u32, 11][..], &[13, 17][..], &[][..]]);
}

// A single index at the numeric maximum is rejected.
#[test]
fn usize_max_index_rejected() {
    let prenorm = [ix(usize::MAX)];
    assert_eq!(
        IndexArgument::many_from_prenorm(&prenorm).unwrap_err(),
        Error::UsizeMaxIndex { current_index: 0 },
    );
}

// A bounded range with its end before its start resolves to an empty
// span rather than an error.
#[test]
fn end_before_start_saturates() {
    let prenorm = [rg(10..5)];
    let IndexArgumentsAndStats { stats, ind_args } =
        IndexArgument::many_from_prenorm(&prenorm).unwrap();
    assert_eq!(ind_args.len(), 1);
    assert_eq!(ind_args[0].start(), 10);
    assert_eq!(ind_args[0].len_else_zero(), 0);
    assert_eq!(ind_args[0].index_kind(), IndexKind::Range);
    assert_eq!(stats.max_bounded_end, 10);
}

// Rearranging a fully explicit descriptor list never changes the final
// maximum bounded end.
#[test]
fn max_bounded_end_ignores_order() {
    let orderings: [[PrenormIndex; 4]; 4] = [
        [ix(3), rg(0..2), rg(7..9), ix(5)],
        [rg(7..9), ix(3), ix(5), rg(0..2)],
        [ix(5), rg(7..9), rg(0..2), ix(3)],
        [rg(0..2), ix(5), ix(3), rg(7..9)],
    ];
    for prenorm in &orderings {
        let stats = IndexArgument::many_from_prenorm(prenorm).unwrap().stats;
        assert_eq!(stats.max_bounded_end, 9);
    }
}

// An unsorted but disjoint list passes the full pairwise scan.
#[test]
fn unsorted_disjoint_passes_scan() {
    let prenorm = [ix(5), rg(0..2), ix(9)];
    let IndexArgumentsAndStats { stats, ind_args } =
        IndexArgument::many_from_prenorm(&prenorm).unwrap();
    assert!(!stats.are_sorted);
    let props = IndexProperties::new(&ind_args, &stats, AreAllDisjoint::Yes);
    assert_eq!(props.are_disjoint, AreAllDisjoint::<Error>::Yes);
}

// The reconciler's full truth table.
#[test]
fn reconciler_truth_table() {
    let overlap = Error::OverlappingIndexArgs { left: 0, right: 1 };
    let yes: AreAllDisjoint<Error> = AreAllDisjoint::Yes;
    let no: AreAllDisjoint<Error> = AreAllDisjoint::No(overlap);

    assert_eq!(yes.check_is_expected(&AreAllDisjoint::<()>::Yes), Ok(()));
    assert_eq!(yes.check_is_expected(&AreAllDisjoint::No(())), Ok(()));
    assert_eq!(no.check_is_expected(&AreAllDisjoint::No(())), Ok(()));
    assert_eq!(no.check_is_expected(&AreAllDisjoint::<()>::Yes), Err(overlap));
}

#[test]
fn with_dummy_error_cases() {
    assert_eq!(
        AreAllDisjoint::Yes.with_dummy_error(),
        AreAllDisjoint::<Error>::Yes,
    );
    assert_eq!(
        AreAllDisjoint::No(()).with_dummy_error(),
        AreAllDisjoint::No(Error::OverlappingIndexArgs {
            left: u16::MAX,
            right: u16::MAX,
        }),
    );
}

#[test]
fn error_tuples() {
    assert_eq!(
        Error::PrevEndIsUnbounded { current_index: 7 }.to_tuple(),
        ErrorTuple { kind: ErrorKind::PrevEndIsUnbounded, first: 7, second: 0 },
    );
    assert_eq!(
        Error::NextStartIsUnbounded { current_index: 3 }.to_tuple(),
        ErrorTuple { kind: ErrorKind::NextStartIsUnbounded, first: 3, second: 0 },
    );
    assert_eq!(
        Error::NextStartIsLessThanCurrent { current_index: 2 }.to_tuple(),
        ErrorTuple { kind: ErrorKind::NextStartIsLessThanCurrent, first: 2, second: 0 },
    );
    assert_eq!(
        Error::InclusiveUptoUsizeMax { current_index: 4 }.to_tuple(),
        ErrorTuple { kind: ErrorKind::InclusiveUptoUsizeMax, first: 4, second: 0 },
    );
    assert_eq!(
        Error::UsizeMaxIndex { current_index: 9 }.to_tuple(),
        ErrorTuple { kind: ErrorKind::UsizeMaxIndex, first: 9, second: 0 },
    );
    assert_eq!(
        Error::OverlappingIndexArgs { left: 1, right: 5 }.to_tuple(),
        ErrorTuple { kind: ErrorKind::OverlappingIndexArgs, first: 1, second: 5 },
    );
    assert_eq!(
        multindex::error::result_to_tuple(Ok(())),
        ErrorTuple { kind: ErrorKind::OK, first: 0, second: 0 },
    );
    assert_eq!(
        multindex::error::result_to_tuple(Err(Error::UsizeMaxIndex { current_index: 1 })),
        ErrorTuple { kind: ErrorKind::UsizeMaxIndex, first: 1, second: 0 },
    );
}

// The whole pipeline: success with and without a disjointness demand,
// overlap evidence, and the first resolution error winning.
#[test]
fn pipeline_outcomes() {
    // Disjoint and sorted: accepted either way.
    let ok = resolve_and_check(&[ix(0), rg(1..4)], AreAllDisjoint::Yes).unwrap();
    assert_eq!(ok.stats.max_bounded_end, 4);
    assert!(ok.stats.are_sorted);

    // Overlapping, disjointness demanded: the first pair in scan order.
    assert_eq!(
        resolve_and_check(&[rg(0..3), rg(2..5)], AreAllDisjoint::Yes).unwrap_err(),
        Error::OverlappingIndexArgs { left: 0, right: 1 },
    );

    // Overlapping, but the caller opted out: accepted.
    let opted_out = resolve_and_check(&[rg(0..3), rg(2..5)], AreAllDisjoint::No(()));
    assert!(opted_out.is_ok());

    // A resolution error beats everything else.
    assert_eq!(
        resolve_and_check(&[ix(usize::MAX), ix(0), ix(0)], AreAllDisjoint::Yes).unwrap_err(),
        Error::UsizeMaxIndex { current_index: 0 },
    );
}

// A full range squeezed between two single indices takes its start from
// the left neighbour's end and its end from the right neighbour's start;
// when the right neighbour starts before that inferred start, resolution
// fails there, before any disjointness check could run.
#[test]
fn inferred_span_cannot_end_before_start() {
    let prenorm = [ix(20), rg_full(), ix(20), ix(21)];
    assert_eq!(
        IndexArgument::many_from_prenorm(&prenorm).unwrap_err(),
        Error::NextStartIsLessThanCurrent { current_index: 1 },
    );
}

// The keep-everything variant of the pipeline: outcome, flattened
// outcome, spans and statistics in one place.
#[test]
fn computed_constants() {
    let ok = compute_constants(&[ix(0), rg(1..4)], AreAllDisjoint::Yes);
    assert_eq!(ok.err, Ok(()));
    assert_eq!(ok.err_tuple.kind, ErrorKind::OK);
    assert_eq!(ok.stats.max_bounded_end, 4);
    assert_eq!(ok.ind_args.len(), 2);

    let overlapping = compute_constants(&[ix(3), ix(3)], AreAllDisjoint::Yes);
    assert_eq!(
        overlapping.err,
        Err(Error::OverlappingIndexArgs { left: 0, right: 1 }),
    );
    assert_eq!(overlapping.err_tuple.kind, ErrorKind::OverlappingIndexArgs);
    assert_eq!(overlapping.err_tuple.first, 0);
    assert_eq!(overlapping.err_tuple.second, 1);
    assert!(overlapping.ind_args.is_empty());
}

// Conversions from each accepted range shape, including the poison cases
// for inclusive ends at the numeric maximum.
#[test]
fn prenorm_conversions() {
    assert_eq!(ix(7), PrenormIndex::Index(7));
    assert_eq!(rg(2..9), PrenormIndex::Range { start: Some(2), end: Some(9) });
    assert_eq!(rg_from(4..), PrenormIndex::Range { start: Some(4), end: None });
    assert_eq!(rg_to(..6), PrenormIndex::Range { start: None, end: Some(6) });
    assert_eq!(rg_full(), PrenormIndex::Range { start: None, end: None });
    assert_eq!(rg_incl(10..=20), PrenormIndex::Range { start: Some(10), end: Some(21) });
    assert_eq!(
        rg_incl(10..=usize::MAX),
        PrenormIndex::InclusiveToMax { start: Some(10) },
    );
    assert_eq!(
        IntoPrenormIndex(..=3usize).call(),
        PrenormIndex::Range { start: None, end: Some(4) },
    );
    assert_eq!(
        IntoPrenormIndex(..=usize::MAX).call(),
        PrenormIndex::InclusiveToMax { start: None },
    );
}

// Materializing single spans of each kind.
#[test]
fn span_slices() {
    let backing = [10u8, 20, 30, 40, 50];
    let IndexArgumentsAndStats { stats, ind_args } =
        IndexArgument::many_from_prenorm(&[ix(1), rg(2..4), rg_from(3..)]).unwrap();
    assert!(stats.max_bounded_end <= backing.len());
    assert_eq!(span_slice(&backing, &ind_args[0]), &[20]);
    assert_eq!(span_slice(&backing, &ind_args[1]), &[30, 40]);
    assert_eq!(span_slice(&backing, &ind_args[2]), &[40, 50]);
}

// Helpers over slices, integers, options and results.
#[test]
fn building_blocks() {
    let xs = [4u8, 5, 6];
    let empty: [u8; 0] = [];
    assert_eq!(slice_m::first(&xs), Some(&4));
    assert_eq!(slice_m::first(&empty), None);
    assert_eq!(slice_m::last(&xs), Some(&6));
    assert_eq!(slice_m::last(&empty), None);
    assert_eq!(slice_m::get(&xs, 1), Some(&5));
    assert_eq!(slice_m::get(&xs, 3), None);

    assert_eq!(usize_m::max(3, 9), 9);
    assert_eq!(usize_m::max(9, 3), 9);
    assert_eq!(usize_m::min(3, 9), 3);
    assert_eq!(usize_m::saturating_sub(9, 3), 6);
    assert_eq!(usize_m::saturating_sub(3, 9), 0);

    assert!(option_m::is_some(&Some(1)));
    assert!(!option_m::is_some(&None::<u8>));
    assert!(option_m::is_none(&None::<u8>));
    assert!(result_m::is_ok(&Ok::<u8, u8>(1)));
    assert!(result_m::is_err(&Err::<u8, u8>(2)));
}

#[test]
fn uniqueness_verdicts() {
    assert_eq!(AreAllUnique::Yes.one_if_unique(), 1);
    assert_eq!(AreAllUnique::No.one_if_unique(), 0);
    AreAllUnique::Yes.assert_equals(AreAllUnique::Yes);
    AreAllUnique::No.assert_equals(AreAllUnique::No);
}

// The all-zero sentinel span and the fresh accumulator.
#[test]
fn default_values() {
    let sentinel = IndexArgument::empty();
    assert_eq!(sentinel.start(), 0);
    assert_eq!(sentinel.index_kind(), IndexKind::Range);
    assert_eq!(sentinel.len_else_zero(), 0);
    assert_eq!(sentinel.saturated_end(), 0);

    let stats = IndexArgumentStats::new();
    assert_eq!(stats.max_bounded_end, 0);
    assert!(stats.are_sorted);
}

// The descriptor's own declared bounds, before inference.
#[test]
fn prenorm_bounds() {
    assert_eq!(ix(3).start(), Some(3));
    assert_eq!(ix(3).end(), Some(4));
    assert_eq!(rg(2..9).start(), Some(2));
    assert_eq!(rg(2..9).end(), Some(9));
    assert_eq!(rg_full().start(), None);
    assert_eq!(rg_full().end(), None);
    assert_eq!(rg_incl(1..=usize::MAX).start(), Some(1));
}
