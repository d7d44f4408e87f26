//! Arithmetic helpers on `usize`.

use vstd::prelude::*;

verus! {

/// The larger of two values.
pub fn max(l: usize, r: usize) -> (m: usize)
    ensures
        m == vstd::math::max(l as int, r as int),
{
    if l >= r {
        l
    } else {
        r
    }
}

/// The smaller of two values.
pub fn min(l: usize, r: usize) -> (m: usize)
    ensures
        m == vstd::math::min(l as int, r as int),
{
    if l <= r {
        l
    } else {
        r
    }
}

/// Subtraction clamped to 0 when the subtrahend is larger.
pub fn saturating_sub(l: usize, r: usize) -> (d: usize)
    ensures
        d == crate::index_argument::spec_saturating_sub(l as int, r as int),
{
    if l < r {
        0
    } else {
        l - r
    }
}

} // verus!
