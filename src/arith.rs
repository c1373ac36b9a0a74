//! Integer helpers shared by the codecs: clamping and rounding division.

use vstd::prelude::*;

verus! {

/// `x` limited to the closed range `[lo, hi]`.
pub open spec fn clamp(x: int, lo: int, hi: int) -> int {
    if x < lo {
        lo
    } else if x > hi {
        hi
    } else {
        x
    }
}

/// `num / den` rounded to the nearest integer, halves away from zero
/// (for the non-negative numerators used here, halves go up).
pub open spec fn round_div(num: int, den: int) -> int
    recommends
        num >= 0,
        den > 0,
{
    (2 * num + den) / (2 * den)
}

/// Scaling by `s / w` with rounding and then back by `w / s` with rounding
/// gives the starting value again whenever `w < s`: the first rounding moves
/// the value by at most half a step of size `1 / w`, which the second scaling
/// shrinks below half a unit.
pub proof fn lemma_round_div_inverse(x: int, s: int, w: int)
    requires
        0 <= x,
        0 < w < s,
    ensures
        round_div(round_div(x * s, w) * w, s) == x,
{
    let n = round_div(x * s, w);
    let r = (2 * (x * s) + w) % (2 * w);
    assert(2 * (x * s) + w == 2 * w * n + r && 0 <= r < 2 * w) by (nonlinear_arith)
        requires
            n == (2 * (x * s) + w) / (2 * w),
            r == (2 * (x * s) + w) % (2 * w),
            w > 0,
    ;
    assert(2 * (n * w) + s == 2 * s * x + (s + w - r)) by (nonlinear_arith)
        requires
            2 * (x * s) + w == 2 * w * n + r,
    ;
    assert((2 * s * x + (s + w - r)) / (2 * s) == x) by (nonlinear_arith)
        requires
            0 <= s + w - r < 2 * s,
            s > 0,
    ;
}

/// Rounded division on machine integers.
pub fn round_div_u64(num: u64, den: u64) -> (r: u64)
    requires
        0 < den <= 0x1000_0000_0000_0000,
        num <= 0x1000_0000_0000_0000,
    ensures
        r == round_div(num as int, den as int),
{
    (2 * num + den) / (2 * den)
}

/// `x` limited to `[lo, hi]`.
pub fn clamp_i64(x: i64, lo: i64, hi: i64) -> (r: i64)
    requires
        lo <= hi,
    ensures
        r == clamp(x as int, lo as int, hi as int),
{
    if x < lo {
        lo
    } else if x > hi {
        hi
    } else {
        x
    }
}

} // verus!
