//! Fixed-point sample values and the arithmetic the engine does on them.

use vstd::prelude::*;
use vstd::arithmetic::div_mod::{
    lemma_div_is_ordered, lemma_div_multiples_vanish, lemma_div_nonincreasing,
    lemma_div_pos_is_pos,
};

verus! {

/// One full-scale amplitude unit: a sample value of `SAMPLE_SCALE` stands for
/// an amplitude of one, `-SAMPLE_SCALE` for minus one. Captured samples may
/// lie outside full scale; only envelope values are clamped into it.
pub const SAMPLE_SCALE: i32 = 1_000_000;

/// One whole recording cycle's worth of progress, in the same fixed-point
/// unit as samples.
pub const PROGRESS_ONE: u64 = 1_000_000;

/// Integer division truncating toward zero, for a positive divisor.
pub open spec fn tdiv(a: int, b: int) -> int
    recommends
        b > 0,
{
    if a >= 0 {
        a / b
    } else {
        -((-a) / b)
    }
}

/// Clamps a value into full scale `[-SAMPLE_SCALE, SAMPLE_SCALE]`.
pub open spec fn clamp_full_scale(v: int) -> int {
    if v > SAMPLE_SCALE as int {
        SAMPLE_SCALE as int
    } else if v < -(SAMPLE_SCALE as int) {
        -(SAMPLE_SCALE as int)
    } else {
        v
    }
}

/// Truncation never takes a quotient outside a bound that covers the
/// dividend in multiples of the divisor.
pub proof fn lemma_tdiv_bound(s: int, l: int, lo: int, hi: int)
    requires
        l > 0,
        lo <= 0,
        hi >= 0,
        l * lo <= s <= l * hi,
    ensures
        lo <= tdiv(s, l) <= hi,
{
    if s >= 0 {
        lemma_div_pos_is_pos(s, l);
        lemma_div_is_ordered(s, l * hi, l);
        lemma_div_multiples_vanish(hi, l);
    } else {
        lemma_div_pos_is_pos(-s, l);
        assert(l * (-lo) == -(l * lo)) by (nonlinear_arith);
        lemma_div_is_ordered(-s, l * (-lo), l);
        lemma_div_multiples_vanish(-lo, l);
    }
}

/// Truncating signed division, matching [`tdiv`].
pub fn tdiv_i128(a: i128, b: i128) -> (q: i128)
    requires
        b > 0,
        a > i128::MIN,
    ensures
        q == tdiv(a as int, b as int),
{
    if a >= 0 {
        proof {
            lemma_div_pos_is_pos(a as int, b as int);
            lemma_div_nonincreasing(a as int, b as int);
        }
        ((a as u128) / (b as u128)) as i128
    } else {
        proof {
            lemma_div_pos_is_pos(-(a as int), b as int);
            lemma_div_nonincreasing(-(a as int), b as int);
        }
        let m: u128 = ((-a) as u128) / (b as u128);
        -(m as i128)
    }
}

} // verus!
