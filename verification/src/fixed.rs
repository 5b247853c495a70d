//! Fixed-point scalar arithmetic.
//!
//! A scalar is an `i64` holding `value * SCALE`, so one unit of the simulated
//! world is `SCALE` raw ticks. Every operation is total: instead of
//! overflowing, results saturate at the `i64` range. Division truncates toward
//! zero, matching the machine's signed division.

use vstd::prelude::*;

verus! {

/// Raw ticks per world unit.
pub const SCALE: i64 = 1000;

/// Saturation of an unbounded integer at the `i64` range.
pub open spec fn sat64(x: int) -> int {
    if x > i64::MAX as int {
        i64::MAX as int
    } else if x < i64::MIN as int {
        i64::MIN as int
    } else {
        x
    }
}

/// Truncating division (toward zero), written over Euclidean `/`.
/// Agrees with the machine's signed division for every divisor except zero.
pub open spec fn div_trunc(a: int, b: int) -> int {
    if a >= 0 {
        a / b
    } else {
        -((-a) / b)
    }
}

/// Clamping to a closed interval.
pub open spec fn clamp_s(v: int, lo: int, hi: int) -> int {
    if v < lo {
        lo
    } else if v > hi {
        hi
    } else {
        v
    }
}

/// Fixed-point product: `a * b / SCALE`, truncated, saturated.
pub open spec fn fx_mul_s(a: int, b: int) -> int {
    sat64(div_trunc(a * b, SCALE as int))
}

/// Fixed-point quotient: `a * SCALE / b`, truncated, saturated.
pub open spec fn fx_div_s(a: int, b: int) -> int {
    sat64(div_trunc(a * (SCALE as int), b))
}

/// Saturating sum.
pub open spec fn sat_add_s(a: int, b: int) -> int {
    sat64(a + b)
}

fn sat64_from_i128(x: i128) -> (r: i64)
    ensures
        r as int == sat64(x as int),
{
    if x > i64::MAX as i128 {
        i64::MAX
    } else if x < i64::MIN as i128 {
        i64::MIN
    } else {
        x as i64
    }
}

/// Fixed-point product of two scalars.
pub fn fx_mul(a: i64, b: i64) -> (r: i64)
    ensures
        r as int == fx_mul_s(a as int, b as int),
{
    proof {
        assert(-(i128::MAX as int) <= (a as int) * (b as int) <= i128::MAX as int)
            by (nonlinear_arith)
            requires
                i64::MIN <= a <= i64::MAX,
                i64::MIN <= b <= i64::MAX,
        ;
    }
    let p: i128 = (a as i128) * (b as i128);
    let q: i128 = p / (SCALE as i128);
    sat64_from_i128(q)
}

/// Fixed-point quotient of two scalars; the divisor must be positive.
pub fn fx_div(a: i64, b: i64) -> (r: i64)
    requires
        b > 0,
    ensures
        r as int == fx_div_s(a as int, b as int),
{
    proof {
        assert(-(i128::MAX as int) <= (a as int) * (SCALE as int) <= i128::MAX as int)
            by (nonlinear_arith)
            requires
                i64::MIN <= a <= i64::MAX,
        ;
    }
    let p: i128 = (a as i128) * (SCALE as i128);
    let q: i128 = p / (b as i128);
    sat64_from_i128(q)
}

/// Saturating sum of two scalars.
pub fn sat_add(a: i64, b: i64) -> (r: i64)
    ensures
        r as int == sat_add_s(a as int, b as int),
{
    let s: i128 = (a as i128) + (b as i128);
    sat64_from_i128(s)
}

/// Clamping of a scalar to a closed interval.
pub fn clamp_fx(v: i64, lo: i64, hi: i64) -> (r: i64)
    requires
        lo <= hi,
    ensures
        r as int == clamp_s(v as int, lo as int, hi as int),
{
    if v < lo {
        lo
    } else if v > hi {
        hi
    } else {
        v
    }
}

/// A whole-second count as a fixed-point scalar, saturated.
pub open spec fn seconds_to_fx_s(s: int) -> int {
    sat64(s * (SCALE as int))
}

/// A whole-second count as a fixed-point scalar.
pub fn seconds_to_fx(s: i64) -> (r: i64)
    ensures
        r as int == seconds_to_fx_s(s as int),
        s >= 0 ==> r >= 0,
{
    let p: i128 = (s as i128) * 1000;
    sat64_from_i128(p)
}

/// `r` is the rounded-down square root of `n`.
pub open spec fn is_sqrt_floor(n: int, r: int) -> bool {
    0 <= r && r * r <= n < (r + 1) * (r + 1)
}

/// The rounded-down square root, as a function.
pub open spec fn sqrt_floor(n: int) -> int
    decreases n,
{
    if n <= 0 {
        0
    } else {
        let r = sqrt_floor(n - 1);
        if (r + 1) * (r + 1) <= n {
            r + 1
        } else {
            r
        }
    }
}

/// `sqrt_floor` meets its characterisation.
pub proof fn lemma_sqrt_floor_is_sqrt(n: int)
    requires
        n >= 0,
    ensures
        is_sqrt_floor(n, sqrt_floor(n)),
    decreases n,
{
    if n == 0 {
        assert(sqrt_floor(0) == 0);
    } else {
        lemma_sqrt_floor_is_sqrt(n - 1);
        let r = sqrt_floor(n - 1);
        if (r + 1) * (r + 1) <= n {
            assert((r + 2) * (r + 2) > n) by (nonlinear_arith)
                requires
                    0 <= r,
                    n - 1 < (r + 1) * (r + 1),
            ;
        }
    }
}

/// At most one integer is the rounded-down square root of `n`.
pub proof fn lemma_sqrt_floor_unique(n: int, r1: int, r2: int)
    requires
        is_sqrt_floor(n, r1),
        is_sqrt_floor(n, r2),
    ensures
        r1 == r2,
{
    if r1 < r2 {
        assert((r1 + 1) * (r1 + 1) <= r2 * r2) by (nonlinear_arith)
            requires
                0 <= r1 < r2,
        ;
    }
    if r2 < r1 {
        assert((r2 + 1) * (r2 + 1) <= r1 * r1) by (nonlinear_arith)
            requires
                0 <= r2 < r1,
        ;
    }
}

/// Rounded-down square root, by bisection.
pub fn isqrt(n: u128) -> (r: u64)
    ensures
        r as int == sqrt_floor(n as int),
        is_sqrt_floor(n as int, r as int),
{
    proof {
        lemma_sqrt_floor_is_sqrt(n as int);
    }
    let mut lo: u128 = 0;
    let mut hi: u128 = 0x1_0000_0000_0000_0000;
    proof {
        assert((hi as int) * (hi as int) > n as int) by (nonlinear_arith)
            requires
                hi == 0x1_0000_0000_0000_0000u128,
                n <= u128::MAX,
        ;
    }
    while hi - lo > 1
        invariant
            0 <= lo < hi <= 0x1_0000_0000_0000_0000u128,
            (lo as int) * (lo as int) <= n as int,
            (hi as int) * (hi as int) > n as int,
        decreases hi - lo,
    {
        let mid: u128 = lo + (hi - lo) / 2;
        proof {
            assert((mid as int) * (mid as int) <= u128::MAX as int) by (nonlinear_arith)
                requires
                    0 <= mid < 0x1_0000_0000_0000_0000u128,
            ;
        }
        if mid * mid <= n {
            lo = mid;
        } else {
            hi = mid;
        }
    }
    proof {
        lemma_sqrt_floor_unique(n as int, lo as int, sqrt_floor(n as int));
    }
    lo as u64
}

} // verus!
