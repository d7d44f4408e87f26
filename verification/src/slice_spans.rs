//! Bounds-checked materialization of resolved spans as subslices.
//!
//! A consumer that holds a validated span list needs one comparison of the
//! aggregate `max_bounded_end` against the slice length; after that, every
//! span materializes within bounds.

use vstd::prelude::*;

use vstd::slice::slice_subrange;

use crate::index_argument::{
    spec_resolve, spec_resolve_ok_upto, spec_span, spec_spans, spec_stats, IndexArgument,
    IndexKind, PrenormIndex,
};
use crate::index_properties::lemma_candidate_le_max;

verus! {

/// The elements a resolved span denotes within a sequence: its bounded
/// region, or the whole tail for a span with an unbounded end.
pub open spec fn spec_span_elems<T>(s: Seq<T>, ia: IndexArgument) -> Seq<T> {
    if ia.index_kind is RangeFrom {
        s.subrange(ia.start as int, s.len() as int)
    } else {
        s.subrange(ia.start as int, ia.spec_saturated_end())
    }
}

/// The subslice a single resolved span denotes.  A span with an unbounded
/// end takes the whole tail from its start; any other span takes exactly
/// its `[start, saturated end)` region.
pub fn span_slice<'a, T>(slice: &'a [T], ia: &IndexArgument) -> (r: &'a [T])
    requires
        ia.wf(),
        ia.index_kind is RangeFrom ==> ia.start <= slice@.len(),
        !(ia.index_kind is RangeFrom) ==> ia.spec_saturated_end() <= slice@.len(),
    ensures
        r@ == spec_span_elems(slice@, *ia),
{
    match ia.index_kind {
        IndexKind::RangeFrom => slice_subrange(slice, ia.start, slice.len()),
        _ => slice_subrange(slice, ia.start, ia.saturated_end()),
    }
}

/// Resolves a descriptor list against a slice and returns one subslice per
/// descriptor, or `None` when the descriptors do not validate or their
/// aggregate bounded end exceeds the slice length.
pub fn multiget_slices<'a, T>(slice: &'a [T], prenorm: &[PrenormIndex]) -> (r: Option<
    Vec<&'a [T]>,
>)
    requires
        prenorm@.len() <= u16::MAX as int + 1,
    ensures
        match r {
            Some(parts) => {
                &&& spec_resolve_ok_upto(prenorm@, prenorm@.len() as int)
                &&& spec_stats(prenorm@, prenorm@.len() as int).max_bounded_end <= slice@.len()
                &&& parts@.len() == prenorm@.len()
                &&& forall|j: int|
                    0 <= j < prenorm@.len() ==> (#[trigger] parts@[j])@ == spec_span_elems(
                        slice@,
                        spec_span(prenorm@, j),
                    )
            },
            None => !spec_resolve_ok_upto(prenorm@, prenorm@.len() as int) || spec_stats(
                prenorm@,
                prenorm@.len() as int,
            ).max_bounded_end > slice@.len(),
        },
{
    let ghost s = prenorm@;
    let ghost total = prenorm@.len() as int;
    let iaas = match IndexArgument::many_from_prenorm(prenorm) {
        Ok(x) => x,
        Err(e) => {
            proof {
                let k = choose|k: int|
                    0 <= k < s.len() && spec_resolve_ok_upto(s, k) && #[trigger] spec_resolve(
                        s,
                        k,
                    ) == Err::<IndexArgument, crate::error::Error>(e);
                assert(!(spec_resolve(s, k) is Ok));
            }
            return None;
        },
    };
    if iaas.stats.max_bounded_end > slice.len() {
        return None;
    }
    let ind_args = iaas.ind_args;
    let n = ind_args.len();
    let mut parts: Vec<&'a [T]> = Vec::new();
    let mut i: usize = 0;
    while i < n
        invariant
            s == prenorm@,
            n == ind_args@.len(),
            n as int == total,
            i <= n,
            total == s.len(),
            spec_resolve_ok_upto(s, total),
            ind_args@ == spec_spans(s, total),
            forall|j: int| 0 <= j < total ==> (#[trigger] ind_args@[j]).wf(),
            spec_stats(s, total).max_bounded_end <= slice@.len(),
            parts@.len() == i,
            forall|j: int|
                0 <= j < i ==> (#[trigger] parts@[j])@ == spec_span_elems(
                    slice@,
                    spec_span(s, j),
                ),
        decreases n - i,
    {
        let ia = ind_args[i];
        proof {
            lemma_candidate_le_max(s, i as int, total);
            assert(ia == spec_span(s, i as int));
        }
        let part = span_slice(slice, &ia);
        parts.push(part);
        i = i + 1;
    }
    Some(parts)
}

} // verus!
