//! Fixed-point sine and cosine on millidegree headings, scaled by one
//! million. The rational approximation used here is exact at every
//! quadrant boundary, which is what the movement step needs to head
//! exactly along the world axes.

use vstd::arithmetic::div_mod::{lemma_div_by_multiple, lemma_div_by_self, lemma_div_is_ordered};
use vstd::prelude::*;
use crate::angle::norm360;

verus! {

/// Scale of direction components: this value stands for 1.0.
pub const TRIG_SCALE: u32 = 1_000_000;

/// The parabola `x * (180_000 - x)`, nonnegative on `[0, 180_000]`.
pub open spec fn half_wave(x: int) -> int {
    x * (180_000 - x)
}

/// Rational sine approximation on the first half turn, `x` in
/// `[0, 180_000]` millidegrees, scaled by 1_000_000.
pub open spec fn sin_half_spec(x: int) -> int {
    (4 * half_wave(x) * 1_000_000) / (40_500_000_000 - half_wave(x))
}

/// Fixed-point sine of a heading in `[0, 360_000)` millidegrees,
/// scaled by 1_000_000.
pub open spec fn sin_spec(a: int) -> int {
    if a <= 180_000 {
        sin_half_spec(a)
    } else {
        -sin_half_spec(a - 180_000)
    }
}

/// Fixed-point cosine of a heading in `[0, 360_000)` millidegrees,
/// scaled by 1_000_000.
pub open spec fn cos_spec(a: int) -> int {
    sin_spec(norm360(a + 90_000))
}

/// The half-wave parabola stays within the bounds the quotient needs.
proof fn lemma_half_wave_bounds(x: int)
    requires
        0 <= x <= 180_000,
    ensures
        0 <= half_wave(x) <= 8_100_000_000,
        1 <= x <= 179_999 ==> half_wave(x) >= 179_999,
{
    assert(x * (180_000 - x) >= 0) by (nonlinear_arith)
        requires 0 <= x <= 180_000,
    ;
    assert(x * (180_000 - x) <= 8_100_000_000) by (nonlinear_arith)
        requires 0 <= x <= 180_000,
    ;
    if 1 <= x <= 179_999 {
        assert(x * (180_000 - x) >= 179_999) by (nonlinear_arith)
            requires 1 <= x <= 179_999,
        ;
    }
}

/// The half-turn sine quotient lies in `[0, 1_000_000]`, and is strictly
/// positive away from the ends of the half turn.
proof fn lemma_sin_half_bounds(x: int)
    requires
        0 <= x <= 180_000,
    ensures
        0 <= sin_half_spec(x) <= 1_000_000,
        1 <= x <= 179_999 ==> sin_half_spec(x) >= 1,
{
    lemma_half_wave_bounds(x);
    let num = 4 * half_wave(x) * 1_000_000;
    let den = 40_500_000_000 - half_wave(x);
    assert(den >= 32_400_000_000);
    assert(num >= 0);
    assert(num <= 1_000_000 * den);
    lemma_div_is_ordered(0, num, den);
    lemma_div_is_ordered(num, 1_000_000 * den, den);
    lemma_div_by_multiple(1_000_000, den);
    if 1 <= x <= 179_999 {
        assert(num >= den);
        lemma_div_is_ordered(den, num, den);
        lemma_div_by_self(den);
    }
}

/// Bounds of the fixed-point sine, and its sign on each half turn.
pub proof fn lemma_sin_bounds(a: int)
    requires
        0 <= a < 360_000,
    ensures
        -1_000_000 <= sin_spec(a) <= 1_000_000,
        0 < a < 180_000 ==> sin_spec(a) >= 1,
        180_000 < a < 360_000 ==> sin_spec(a) <= -1,
{
    if a <= 180_000 {
        lemma_sin_half_bounds(a);
        if 0 < a < 180_000 {
            assert(1 <= a <= 179_999);
        }
    } else {
        lemma_sin_half_bounds(a - 180_000);
        if 180_000 < a < 360_000 {
            assert(1 <= a - 180_000 <= 179_999);
        }
    }
}

/// The fixed-point sine is exact at the four quadrant boundaries.
pub proof fn lemma_sin_quadrants()
    ensures
        sin_spec(0) == 0,
        sin_spec(90_000) == 1_000_000,
        sin_spec(180_000) == 0,
        sin_spec(270_000) == -1_000_000,
{
    assert(half_wave(0) == 0) by (nonlinear_arith);
    assert(half_wave(90_000) == 8_100_000_000) by (nonlinear_arith);
    assert(half_wave(180_000) == 0) by (nonlinear_arith);
    assert(sin_half_spec(0) == 0int / 40_500_000_000int);
    lemma_div_by_multiple(0, 40_500_000_000);
    assert(sin_half_spec(90_000) == 32_400_000_000_000_000int / 32_400_000_000int);
    lemma_div_by_multiple(1_000_000, 32_400_000_000);
    assert(32_400_000_000_000_000int == 1_000_000int * 32_400_000_000int);
}

/// The fixed-point cosine is exact at the four quadrant boundaries.
pub proof fn lemma_cos_quadrants()
    ensures
        cos_spec(0) == 1_000_000,
        cos_spec(90_000) == 0,
        cos_spec(180_000) == -1_000_000,
        cos_spec(270_000) == 0,
{
    lemma_sin_quadrants();
    assert(norm360(0int + 90_000int) == 90_000);
    assert(norm360(90_000int + 90_000int) == 180_000);
    assert(norm360(180_000int + 90_000int) == 270_000);
    assert(norm360(270_000int + 90_000int) == 0);
}

/// Fixed-point sine, scaled by 1_000_000.
pub fn sin_fixed(a: u32) -> (r: i32)
    requires
        a < 360_000,
    ensures
        r == sin_spec(a as int),
        -1_000_000 <= r <= 1_000_000,
{
    proof {
        lemma_sin_bounds(a as int);
    }
    let (x, neg): (u64, bool) = if a <= 180_000 {
        (a as u64, false)
    } else {
        ((a - 180_000) as u64, true)
    };
    proof {
        lemma_half_wave_bounds(x as int);
        lemma_sin_half_bounds(x as int);
    }
    let p: u64 = x * (180_000 - x);
    let num: u64 = 4 * p * 1_000_000;
    let den: u64 = 40_500_000_000 - p;
    let q: u64 = num / den;
    assert(q == sin_half_spec(x as int));
    if neg {
        -(q as i32)
    } else {
        q as i32
    }
}

/// Fixed-point cosine, scaled by 1_000_000.
pub fn cos_fixed(a: u32) -> (r: i32)
    requires
        a < 360_000,
    ensures
        r == cos_spec(a as int),
        -1_000_000 <= r <= 1_000_000,
{
    let shifted: u32 = if a < 270_000 {
        a + 90_000
    } else {
        a - 270_000
    };
    assert(shifted == norm360(a + 90_000));
    sin_fixed(shifted)
}

} // verus!
