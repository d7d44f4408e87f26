//! A fixed set of 64 bit positions, used to cross-check resolved spans
//! against an element-by-element model of occupancy.

use vstd::prelude::*;

verus! {

/// Whether bit `i` of `bits` is set.
pub open spec fn spec_bit_set(bits: u64, i: u64) -> bool
    recommends
        i < 64,
{
    bits & (1u64 << i) != 0
}

/// A set of bit positions 0 to 63, one bit of a `u64` each.
#[derive(Debug, Copy, Clone, PartialEq, Eq)]
pub struct BitSet(u64);

impl View for BitSet {
    type V = u64;

    closed spec fn view(&self) -> u64 {
        self.0
    }
}

impl BitSet {
    /// The set with no position set.
    pub fn empty() -> (r: Self)
        ensures
            r@ == 0u64,
    {
        BitSet(0)
    }

    /// Marks every position of the half-open range as set; positions
    /// outside it keep their state.
    pub fn set_range(&mut self, range: core::ops::Range<u8>)
        requires
            range.start <= range.end,
            range.end <= 64,
        ensures
            forall|i: u64|
                i < 64 ==> (spec_bit_set(final(self)@, i) <==> spec_bit_set(old(self)@, i) || (
                range.start <= i < range.end)),
    {
        let mask = bits_set_in_range(core::ops::Range { start: range.start, end: range.end });
        let ghost old_bits: u64 = self.0;
        self.0 = self.0 | mask;
        proof {
            assert forall|i: u64|
                i < 64 implies (spec_bit_set(self.0, i) <==> spec_bit_set(old_bits, i) || (
            range.start <= i < range.end)) by {
                assert(((old_bits | mask) & (1u64 << i) != 0) <==> ((old_bits & (1u64 << i) != 0)
                    || (mask & (1u64 << i) != 0))) by (bit_vector);
                assert(spec_bit_set(mask, i) <==> range.start <= i < range.end);
            }
        }
    }

    /// Whether the position is set.
    pub fn is_set(self, bit: u8) -> (r: bool)
        requires
            bit < 64,
        ensures
            r == spec_bit_set(self@, bit as u64),
    {
        (self.0 & (1u64 << (bit as u64))) != 0
    }

    /// Whether the position is unset.
    pub fn is_unset(self, bit: u8) -> (r: bool)
        requires
            bit < 64,
        ensures
            r == !spec_bit_set(self@, bit as u64),
    {
        (self.0 & (1u64 << (bit as u64))) == 0
    }

    /// The raw bits of the set.
    pub fn to_bits(self) -> (r: u64)
        ensures
            r == self@,
    {
        self.0
    }

    /// The number of positions the set can hold.
    pub fn capacity(self) -> (r: usize)
        ensures
            r == 64usize,
    {
        64
    }
}

/// The mask whose set bits are exactly the positions of the half-open
/// range.
fn bits_set_in_range(range: core::ops::Range<u8>) -> (r: u64)
    requires
        range.start <= range.end,
        range.end <= 64,
    ensures
        forall|i: u64| i < 64 ==> (spec_bit_set(r, i) <==> range.start <= i < range.end),
{
    let start = range.start;
    let end = range.end;
    let shift: u8 = 64 - end + start;
    let base = saturating_shr_u64(u64::MAX, shift);
    let r: u64 = if start >= 64 {
        0
    } else {
        base << (start as u64)
    };
    proof {
        let s: u64 = start as u64;
        let e: u64 = end as u64;
        assert(forall|i: u64|
            i < 64 ==> (((if s >= 64 {
                0u64
            } else {
                (if 64 - e + s > 63 {
                    0u64
                } else {
                    u64::MAX >> ((64 - e + s) as u64)
                }) << s
            }) & (1u64 << i) != 0) <==> (s <= i && i < e))) by (bit_vector)
            requires
                s <= e,
                e <= 64,
        ;
    }
    r
}

/// Right shift that yields 0 once the whole width is shifted out.
fn saturating_shr_u64(n: u64, shift: u8) -> (r: u64)
    ensures
        r == (if shift > 63 {
            0u64
        } else {
            n >> (shift as u64)
        }),
{
    if shift > 63 {
        0
    } else {
        n >> (shift as u64)
    }
}

} // verus!
