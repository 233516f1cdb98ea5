//! Regions of interest and rounding to the device's increment grid.
//!
//! The device only accepts window sizes and offsets that are multiples of a
//! per-parameter increment it reports. Requested values are therefore rounded
//! down to the grid before they are applied; rounding is idempotent, which is
//! what makes applying the same region twice yield the same result.

use vstd::prelude::*;

verus! {

/// Roi represents a region of interest.
#[derive(Clone, Copy)]
pub struct Roi {
    /// Offset from the left in the horizontal direction
    pub offset_x: u32,

    /// Offset from the top in the vertical direction
    pub offset_y: u32,

    /// Image width
    pub width: u32,

    /// Image height
    pub height: u32,
}

/// `v` rounded down to the nearest multiple of `increment`.
pub open spec fn spec_round_down(v: u32, increment: u32) -> u32
    recommends
        increment >= 1,
{
    (v - v % increment) as u32
}

/// The largest multiple of `increment` that is at most `v`.
pub fn round_down(v: u32, increment: u32) -> (r: u32)
    requires
        increment >= 1,
    ensures
        r == spec_round_down(v, increment),
        r % increment == 0,
        r <= v,
        v - r < increment,
{
    proof {
        lemma_round_down(v, increment);
    }
    v - v % increment
}

/// Facts about rounding down to a grid: the result is on the grid, does not
/// exceed the input, and misses it by less than one increment.
pub proof fn lemma_round_down(v: u32, increment: u32)
    requires
        increment >= 1,
    ensures
        spec_round_down(v, increment) % increment == 0,
        spec_round_down(v, increment) <= v,
        v - spec_round_down(v, increment) < increment,
        v % increment <= v,
{
    vstd::arithmetic::div_mod::lemma_mod_decreases(v as nat, increment as nat);
    let r = spec_round_down(v, increment);
    assert(r % increment == 0) by {
        let q = v as int / increment as int;
        vstd::arithmetic::div_mod::lemma_fundamental_div_mod(v as int, increment as int);
        assert(r == q * increment);
        vstd::arithmetic::div_mod::lemma_mod_multiples_basic(q, increment as int);
    }
}

/// Rounding down is idempotent: a value already on the grid stays put.
pub proof fn lemma_round_down_idempotent(v: u32, increment: u32)
    requires
        increment >= 1,
    ensures
        spec_round_down(spec_round_down(v, increment), increment) == spec_round_down(
            v,
            increment,
        ),
{
    lemma_round_down(v, increment);
}

} // verus!
