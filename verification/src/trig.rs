//! Trigonometry on fixed-point angles.
//!
//! An angle is a fixed-point scalar in radians (`SCALE` raw ticks per
//! radian). Sine and cosine are computed by truncated power series after
//! reduction to a quarter period, and are clamped to `[-SCALE, SCALE]`; the
//! spec functions below state the computed value exactly. `atan2_fx` uses a
//! quadratic approximation of the arctangent on `[0, 1]`. These are the
//! library's own deterministic definitions of the trigonometric maps, exact
//! at angle zero and accurate to a few raw ticks elsewhere.

use vstd::prelude::*;

use crate::fixed::{clamp_s, div_trunc, sat64, SCALE};

verus! {

/// One quarter turn, `pi/2`, in raw ticks.
pub const HALF_PI_FX: i64 = 1571;

/// Half a turn, `pi`, in raw ticks.
pub const PI_FX: i64 = 3142;

/// A full turn, `2 * pi`, in raw ticks.
pub const TWO_PI_FX: i64 = 6283;

/// An eighth of a turn, `pi/4`, in raw ticks.
pub const QUARTER_PI_FX: i64 = 785;

/// Truncating remainder (toward zero), as the machine's `%` computes it.
pub open spec fn rem_trunc(a: int, b: int) -> int {
    if a >= 0 {
        a % b
    } else {
        -((-a) % b)
    }
}

/// Reduction of an angle to `[-PI_FX, PI_FX]`, shifting by whole turns.
pub open spec fn wrap_angle_s(a: int) -> int {
    let r = rem_trunc(a, TWO_PI_FX as int);
    if r > PI_FX as int {
        r - TWO_PI_FX as int
    } else if r < -(PI_FX as int) {
        r + TWO_PI_FX as int
    } else {
        r
    }
}

/// The sine series `x - x^3/6 + x^5/120`, in raw ticks, clamped to one unit.
pub open spec fn sin_poly_s(x: int) -> int {
    clamp_s(
        x - div_trunc(x * x * x, 6000000) + div_trunc(x * x * x * x * x, 120000000000000),
        -(SCALE as int),
        SCALE as int,
    )
}

/// The cosine series `1 - x^2/2 + x^4/24`, in raw ticks, clamped to one unit.
pub open spec fn cos_poly_s(x: int) -> int {
    clamp_s(
        SCALE as int - div_trunc(x * x, 2000) + div_trunc(x * x * x * x, 24000000000),
        -(SCALE as int),
        SCALE as int,
    )
}

/// Sine of an angle: reduction to a quarter period, then the series.
pub open spec fn sin_fx_s(a: int) -> int {
    let r = wrap_angle_s(a);
    let x = if r > HALF_PI_FX as int {
        PI_FX as int - r
    } else if r < -(HALF_PI_FX as int) {
        -(PI_FX as int) - r
    } else {
        r
    };
    sin_poly_s(x)
}

/// Cosine of an angle: reduction to a quarter period, then the series.
pub open spec fn cos_fx_s(a: int) -> int {
    let r = wrap_angle_s(a);
    let c = if r < 0 {
        -r
    } else {
        r
    };
    if c > HALF_PI_FX as int {
        -cos_poly_s(PI_FX as int - c)
    } else {
        cos_poly_s(c)
    }
}

/// Tangent of an angle: `sin * SCALE / cos`, truncated toward zero,
/// saturated at the `i64` range where the cosine reaches zero (the steering
/// singularity).
pub open spec fn tan_fx_s(a: int) -> int {
    let s = sin_fx_s(a);
    let c = cos_fx_s(a);
    if c == 0 {
        if s >= 0 {
            i64::MAX as int
        } else {
            i64::MIN as int
        }
    } else {
        let m = (if s < 0 {
            -s
        } else {
            s
        }) * (SCALE as int) / (if c < 0 {
            -c
        } else {
            c
        });
        sat64(
            if (s < 0) != (c < 0) {
                -m
            } else {
                m
            },
        )
    }
}

/// The arctangent approximation `pi/4 * z + 0.273 * z * (1 - z)` on `[0, 1]`,
/// in raw ticks.
pub open spec fn atan_poly_s(z: int) -> int {
    div_trunc(QUARTER_PI_FX as int * z, 1000) + div_trunc(273 * z * (1000 - z), 1000000)
}

/// Signed angle of the vector `(x, y)` against the positive x axis, in
/// `[-PI_FX, PI_FX]`; the zero vector maps to angle zero.
pub open spec fn atan2_fx_s(y: int, x: int) -> int {
    let ax = if x < 0 {
        -x
    } else {
        x
    };
    let ay = if y < 0 {
        -y
    } else {
        y
    };
    if ax == 0 && ay == 0 {
        0
    } else {
        let base = if ay <= ax {
            atan_poly_s(div_trunc(ay * 1000, ax))
        } else {
            HALF_PI_FX as int - atan_poly_s(div_trunc(ax * 1000, ay))
        };
        let q = if x >= 0 {
            base
        } else {
            PI_FX as int - base
        };
        if y >= 0 {
            q
        } else {
            -q
        }
    }
}

/// Reduction of an angle to `[-PI_FX, PI_FX]`.
pub fn wrap_angle(a: i64) -> (r: i64)
    ensures
        r as int == wrap_angle_s(a as int),
        -(PI_FX as int) <= r as int <= PI_FX as int,
{
    let m: i64 = a % TWO_PI_FX;
    if m > PI_FX {
        m - TWO_PI_FX
    } else if m < -PI_FX {
        m + TWO_PI_FX
    } else {
        m
    }
}

/// Sine of a fixed-point angle.
pub fn sin_fx(a: i64) -> (r: i64)
    ensures
        r as int == sin_fx_s(a as int),
        -(SCALE as int) <= r as int <= SCALE as int,
{
    let w: i64 = wrap_angle(a);
    let x: i64 = if w > HALF_PI_FX {
        PI_FX - w
    } else if w < -HALF_PI_FX {
        -PI_FX - w
    } else {
        w
    };
    proof {
        assert(0 <= (x as int) * (x as int) <= 2468041) by (nonlinear_arith)
            requires
                -1571 <= x <= 1571,
        ;
    }
    let x2: i64 = x * x;
    proof {
        assert(-3877292411 <= (x2 as int) * (x as int) <= 3877292411) by (nonlinear_arith)
            requires
                0 <= x2 <= 2468041,
                -1571 <= x <= 1571,
        ;
    }
    let x3: i64 = x2 * x;
    proof {
        assert(-6091226377681 <= (x3 as int) * (x as int) <= 6091226377681) by (nonlinear_arith)
            requires
                -3877292411 <= x3 <= 3877292411,
                -1571 <= x <= 1571,
        ;
    }
    let x4: i64 = x3 * x;
    proof {
        assert(-9569316639336851 <= (x4 as int) * (x as int) <= 9569316639336851)
            by (nonlinear_arith)
            requires
                -6091226377681 <= x4 <= 6091226377681,
                -1571 <= x <= 1571,
        ;
    }
    let x5: i64 = x4 * x;
    let s: i64 = x - x3 / 6000000 + x5 / 120000000000000;
    clamp_fx_unit(s)
}

/// Cosine of a fixed-point angle.
pub fn cos_fx(a: i64) -> (r: i64)
    ensures
        r as int == cos_fx_s(a as int),
        -(SCALE as int) <= r as int <= SCALE as int,
{
    let w: i64 = wrap_angle(a);
    let c: i64 = if w < 0 {
        -w
    } else {
        w
    };
    if c > HALF_PI_FX {
        -cos_poly_exec(PI_FX - c)
    } else {
        cos_poly_exec(c)
    }
}

fn cos_poly_exec(x: i64) -> (r: i64)
    requires
        0 <= x <= HALF_PI_FX as int,
    ensures
        r as int == cos_poly_s(x as int),
        -(SCALE as int) <= r as int <= SCALE as int,
{
    proof {
        assert(0 <= (x as int) * (x as int) <= 2468041) by (nonlinear_arith)
            requires
                0 <= x <= 1571,
        ;
    }
    let x2: i64 = x * x;
    proof {
        assert(0 <= (x2 as int) * (x as int) <= 3877292411) by (nonlinear_arith)
            requires
                0 <= x2 <= 2468041,
                0 <= x <= 1571,
        ;
    }
    let x3: i64 = x2 * x;
    proof {
        assert(0 <= (x3 as int) * (x as int) <= 6091226377681) by (nonlinear_arith)
            requires
                0 <= x3 <= 3877292411,
                0 <= x <= 1571,
        ;
    }
    let x4: i64 = x3 * x;
    let c: i64 = SCALE - x2 / 2000 + x4 / 24000000000;
    clamp_fx_unit(c)
}

fn clamp_fx_unit(v: i64) -> (r: i64)
    ensures
        r as int == clamp_s(v as int, -(SCALE as int), SCALE as int),
        -(SCALE as int) <= r as int <= SCALE as int,
{
    if v < -SCALE {
        -SCALE
    } else if v > SCALE {
        SCALE
    } else {
        v
    }
}

/// Largest argument magnitude `atan2_fx` accepts; `1000` times it still
/// fits an `i128`.
pub const ATAN2_ARG_LIMIT: i128 = 170141183460469231731687303715884105;

fn atan_poly_exec(z: i64) -> (r: i64)
    requires
        0 <= z <= 1000,
    ensures
        r as int == atan_poly_s(z as int),
        0 <= r as int <= 1058,
{
    proof {
        assert(QUARTER_PI_FX == 785);
    }
    let t1: i64 = QUARTER_PI_FX * z / 1000;
    let u: i64 = 273 * z;
    proof {
        assert(0 <= (u as int) * ((1000 - z) as int) <= 273000000) by (nonlinear_arith)
            requires
                0 <= u <= 273000,
                0 <= z <= 1000,
        ;
    }
    let v: i64 = u * (1000 - z);
    let t2: i64 = v / 1000000;
    t1 + t2
}

/// Signed angle of the vector `(x, y)` against the positive x axis.
pub fn atan2_fx(y: i128, x: i128) -> (r: i64)
    requires
        -ATAN2_ARG_LIMIT as int <= y as int <= ATAN2_ARG_LIMIT as int,
        -ATAN2_ARG_LIMIT as int <= x as int <= ATAN2_ARG_LIMIT as int,
    ensures
        r as int == atan2_fx_s(y as int, x as int),
        -(PI_FX as int) <= r as int <= PI_FX as int,
{
    let ax: i128 = if x < 0 {
        -x
    } else {
        x
    };
    let ay: i128 = if y < 0 {
        -y
    } else {
        y
    };
    if ax == 0 && ay == 0 {
        return 0;
    }
    let base: i64 = if ay <= ax {
        proof {
            vstd::arithmetic::div_mod::lemma_div_pos_is_pos((ay as int) * 1000, ax as int);
            vstd::arithmetic::div_mod::lemma_div_is_ordered(
                (ay as int) * 1000,
                (ax as int) * 1000,
                ax as int,
            );
            vstd::arithmetic::div_mod::lemma_div_multiples_vanish(1000, ax as int);
        }
        let z: i128 = ay * 1000 / ax;
        atan_poly_exec(z as i64)
    } else {
        proof {
            vstd::arithmetic::div_mod::lemma_div_pos_is_pos((ax as int) * 1000, ay as int);
            vstd::arithmetic::div_mod::lemma_div_is_ordered(
                (ax as int) * 1000,
                (ay as int) * 1000,
                ay as int,
            );
            vstd::arithmetic::div_mod::lemma_div_multiples_vanish(1000, ay as int);
        }
        let z: i128 = ax * 1000 / ay;
        HALF_PI_FX - atan_poly_exec(z as i64)
    };
    let q: i64 = if x >= 0 {
        base
    } else {
        PI_FX - base
    };
    if y >= 0 {
        q
    } else {
        -q
    }
}

/// Tangent of a fixed-point angle, saturated at the steering singularity.
pub fn tan_fx(a: i64) -> (r: i64)
    ensures
        r as int == tan_fx_s(a as int),
{
    let s: i64 = sin_fx(a);
    let c: i64 = cos_fx(a);
    if c == 0 {
        if s >= 0 {
            i64::MAX
        } else {
            i64::MIN
        }
    } else {
        let sa: i128 = if s < 0 {
            -(s as i128)
        } else {
            s as i128
        };
        let ca: i128 = if c < 0 {
            -(c as i128)
        } else {
            c as i128
        };
        let m: i128 = sa * 1000 / ca;
        let q: i128 = if (s < 0) != (c < 0) {
            -m
        } else {
            m
        };
        if q > i64::MAX as i128 {
            i64::MAX
        } else if q < i64::MIN as i128 {
            i64::MIN
        } else {
            q as i64
        }
    }
}

} // verus!
