//! Fixed-point transcendental functions.
//!
//! The true sine, logarithm and friends are irrational, so this library
//! defines its own fixed-point approximations: range reduction followed by a
//! short polynomial. Each executable function is specified exactly by the
//! spec function of the same shape; the polynomial is the definition, and
//! everything downstream is proved against it.

use vstd::prelude::*;
use crate::fx::{
    SCALE, f_add, f_sub, f_neg, f_abs, f_clamp, f_div, f_divi, f_mul, f_sqrt, fx_abs, fx_add,
    fx_clamp, fx_div, fx_divi, fx_mul, fx_neg, fx_sqrt, fx_sub, div_floor,
};

verus! {

/// Half turn, in fixed-point radians.
pub const PI: i64 = 3_141_593;

/// Full turn, in fixed-point radians.
pub const TWO_PI: i64 = 6_283_185;

/// Quarter turn, in fixed-point radians.
pub const HALF_PI: i64 = 1_570_796;

/// Eighth of a turn, in fixed-point radians.
pub const QUARTER_PI: i64 = 785_398;

/// Natural logarithm of two, in fixed point.
pub const LN2: i64 = 693_147;

/// First coefficient of the arctangent polynomial.
pub const ATAN_C1: i64 = 244_700;

/// Second coefficient of the arctangent polynomial.
pub const ATAN_C2: i64 = 66_300;

/// An angle shifted by whole turns into `[-PI, TWO_PI - PI)`.
pub open spec fn f_reduce(x: int) -> int {
    x - (TWO_PI as int) * ((x + PI) / (TWO_PI as int))
}

/// Odd degree-seven polynomial for the sine on `[-QUARTER_PI, QUARTER_PI]`,
/// clamped into `[-SCALE, SCALE]`. Exact at zero.
pub open spec fn f_sin_poly(v: int) -> int {
    let v2 = f_mul(v, v);
    let v3 = f_mul(v2, v);
    let v5 = f_mul(v3, v2);
    let v7 = f_mul(v5, v2);
    f_clamp(
        f_sub(f_add(f_sub(v, f_divi(v3, 6)), f_divi(v5, 120)), f_divi(v7, 5040)),
        -(SCALE as int),
        SCALE as int,
    )
}

/// Even degree-eight polynomial for the cosine on `[0, QUARTER_PI]`, clamped
/// into `[-SCALE, SCALE]`. Exact at zero: the cosine of zero is one.
pub open spec fn f_cos_poly(v: int) -> int {
    let v2 = f_mul(v, v);
    let v4 = f_mul(v2, v2);
    let v6 = f_mul(v4, v2);
    let v8 = f_mul(v6, v2);
    f_clamp(
        f_add(
            f_sub(f_add(f_sub(SCALE as int, f_divi(v2, 2)), f_divi(v4, 24)), f_divi(v6, 720)),
            f_divi(v8, 40320),
        ),
        -(SCALE as int),
        SCALE as int,
    )
}

/// Sine or cosine on the central half turn `[-HALF_PI, HALF_PI]`: the octant
/// within an eighth of a turn of zero takes the sine polynomial, the rest is
/// reflected onto the cosine polynomial, so both ends are exact.
pub open spec fn f_sin_folded(v: int) -> int {
    if v > QUARTER_PI {
        f_cos_poly((HALF_PI as int) - v)
    } else if v < -(QUARTER_PI as int) {
        f_neg(f_cos_poly((HALF_PI as int) + v))
    } else {
        f_sin_poly(v)
    }
}

/// Fixed-point sine: reduce to one turn, fold into the central half turn,
/// then take the octant's polynomial. Exact at zero and at a quarter turn.
pub open spec fn f_sin(x: int) -> int {
    let r = f_reduce(x);
    let v = if r > HALF_PI {
        PI - r
    } else if r < -(HALF_PI as int) {
        -(PI as int) - r
    } else {
        r
    };
    f_sin_folded(v)
}

/// Fixed-point cosine: reduce to one turn, use evenness to fold into
/// `[0, PI]`, and reflect the upper half onto the sine's machinery.
/// Exact at zero: a zero angle has cosine one.
pub open spec fn f_cos(x: int) -> int {
    let r = f_reduce(x);
    let a = if r < 0 { -r } else { r };
    if a > HALF_PI {
        f_neg(f_sin_folded((HALF_PI as int) - ((PI as int) - a)))
    } else {
        f_sin_folded((HALF_PI as int) - a)
    }
}

/// Fixed-point tangent; where the cosine approximation is not positive the
/// result saturates, standing for a pole.
pub open spec fn f_tan(x: int) -> int {
    let c = f_cos(x);
    if c <= 0 {
        i64::MAX as int
    } else {
        f_div(f_sin(x), c)
    }
}

/// Arctangent polynomial for arguments in `[-SCALE, SCALE]`.
pub open spec fn f_atan_unit(u: int) -> int {
    let au = f_abs(u);
    f_add(
        f_mul(QUARTER_PI as int, u),
        f_mul(f_mul(u, f_sub(SCALE as int, au)), f_add(ATAN_C1 as int, f_mul(ATAN_C2 as int, au))),
    )
}

/// Fixed-point two-argument arctangent: the quadrant is decided by signs and
/// the slope is fed to the unit arctangent, smaller magnitude over larger.
pub open spec fn f_atan2(y: int, x: int) -> int {
    if x == 0 && y == 0 {
        0
    } else {
        let ax = f_abs(x);
        let ay = f_abs(y);
        if ax >= ay {
            let q = if x > 0 {
                f_div(y, x)
            } else {
                f_div(f_neg(y), f_neg(x))
            };
            let base = f_atan_unit(q);
            if x > 0 {
                base
            } else if y >= 0 {
                f_add(base, PI as int)
            } else {
                f_sub(base, PI as int)
            }
        } else {
            let q = if y > 0 {
                f_div(x, y)
            } else {
                f_div(f_neg(x), f_neg(y))
            };
            let base = f_atan_unit(q);
            if y > 0 {
                f_sub(HALF_PI as int, base)
            } else {
                f_sub(f_neg(HALF_PI as int), base)
            }
        }
    }
}

/// Fixed-point arccosine via the identity with the arctangent of
/// `sqrt(1 - u^2)` over `u`; the argument is clamped to `[-SCALE, SCALE]`.
pub open spec fn f_acos(u: int) -> int {
    let uc = f_clamp(u, -(SCALE as int), SCALE as int);
    let s = f_sqrt(f_sub(SCALE as int, f_mul(uc, uc)));
    f_atan2(s, uc)
}

/// Series for the logarithm of a mantissa in `[SCALE, 2 * SCALE)`, through
/// the inverse hyperbolic tangent of `(m - 1) / (m + 1)`.
pub open spec fn f_ln_core(m: int) -> int {
    let t = f_div(f_sub(m, SCALE as int), f_add(m, SCALE as int));
    let t2 = f_mul(t, t);
    let t3 = f_mul(t2, t);
    let t5 = f_mul(t3, t2);
    let s = f_add(f_add(t, f_divi(t3, 3)), f_divi(t5, 5));
    f_add(s, s)
}

/// Fixed-point natural logarithm: halve or double into the core interval,
/// collecting whole multiples of `ln 2`. A nonpositive argument yields zero.
pub open spec fn f_ln(v: int) -> int
    decreases (if v >= SCALE { v } else { 3 * (SCALE as int) - v }),
{
    if v <= 0 {
        0
    } else if v >= 2 * (SCALE as int) {
        f_add(f_ln(v / 2), LN2 as int)
    } else if v < SCALE {
        f_sub(f_ln(2 * v), LN2 as int)
    } else {
        f_ln_core(v)
    }
}

/// A value doubled (saturating) or halved `n` times, by the sign of `n`.
pub open spec fn f_scale2(v: int, n: int) -> int
    decreases (if n >= 0 { n } else { -n }),
{
    if n == 0 {
        v
    } else if n > 0 {
        f_scale2(f_add(v, v), n - 1)
    } else {
        f_scale2(v / 2, n + 1)
    }
}

/// Fixed-point exponential: split off whole multiples of `ln 2`, run a
/// degree-five series on the remainder, then shift by powers of two.
/// Saturates high and flushes to zero low.
pub open spec fn f_exp(x: int) -> int {
    if x >= 32 * (SCALE as int) {
        i64::MAX as int
    } else if x <= -32 * (SCALE as int) {
        0
    } else {
        let n = x / (LN2 as int);
        let f = x - n * (LN2 as int);
        let f2 = f_mul(f, f);
        let f3 = f_mul(f2, f);
        let f4 = f_mul(f3, f);
        let f5 = f_mul(f4, f);
        let p = f_add(
            f_add(f_add(f_add(f_add(SCALE as int, f), f_divi(f2, 2)), f_divi(f3, 6)), f_divi(f4, 24)),
            f_divi(f5, 120),
        );
        f_scale2(p, n)
    }
}

/// Fixed-point power of a positive base, as the exponential of
/// `p * ln(b)`; a nonpositive base yields zero.
pub open spec fn f_pow(b: int, p: int) -> int {
    if b <= 0 {
        0
    } else {
        f_exp(f_mul(p, f_ln(b)))
    }
}

/// An angle shifted by whole turns into `[-PI, TWO_PI - PI)`.
pub fn fx_reduce(x: i64) -> (r: i64)
    ensures
        r as int == f_reduce(x as int),
        -(PI as int) <= r as int,
        (r as int) < (TWO_PI as int) - (PI as int),
{
    let xx: i128 = x as i128 + (PI as i128);
    let q: i128 = div_floor(xx, TWO_PI as i128);
    proof {
        assert((TWO_PI as int) * (q as int) <= xx as int);
        assert((xx as int) < (TWO_PI as int) * (q as int + 1));
    }
    let r128: i128 = x as i128 - (TWO_PI as i128) * q;
    r128 as i64
}

/// The sine polynomial, executed.
fn sin_poly_run(v: i64) -> (r: i64)
    ensures
        r as int == f_sin_poly(v as int),
        -(SCALE as int) <= r as int <= SCALE as int,
{
    let v2 = fx_mul(v, v);
    let v3 = fx_mul(v2, v);
    let v5 = fx_mul(v3, v2);
    let v7 = fx_mul(v5, v2);
    fx_clamp(
        fx_sub(fx_add(fx_sub(v, fx_divi(v3, 6)), fx_divi(v5, 120)), fx_divi(v7, 5040)),
        -SCALE,
        SCALE,
    )
}

/// The cosine polynomial, executed.
fn cos_poly_run(v: i64) -> (r: i64)
    ensures
        r as int == f_cos_poly(v as int),
        -(SCALE as int) <= r as int <= SCALE as int,
{
    let v2 = fx_mul(v, v);
    let v4 = fx_mul(v2, v2);
    let v6 = fx_mul(v4, v2);
    let v8 = fx_mul(v6, v2);
    fx_clamp(
        fx_add(
            fx_sub(fx_add(fx_sub(SCALE, fx_divi(v2, 2)), fx_divi(v4, 24)), fx_divi(v6, 720)),
            fx_divi(v8, 40320),
        ),
        -SCALE,
        SCALE,
    )
}

/// Sine or cosine on the central half turn, by octant.
fn sin_folded_run(v: i64) -> (r: i64)
    requires
        -(HALF_PI as int) <= v as int <= HALF_PI as int,
    ensures
        r as int == f_sin_folded(v as int),
        -(SCALE as int) <= r as int <= SCALE as int,
{
    if v > QUARTER_PI {
        cos_poly_run(HALF_PI - v)
    } else if v < -QUARTER_PI {
        fx_neg(cos_poly_run(HALF_PI + v))
    } else {
        sin_poly_run(v)
    }
}

/// Fixed-point sine.
pub fn fx_sin(x: i64) -> (r: i64)
    ensures
        r as int == f_sin(x as int),
        -(SCALE as int) <= r as int <= SCALE as int,
{
    let rr = fx_reduce(x);
    let v: i64 = if rr > HALF_PI {
        PI - rr
    } else if rr < -HALF_PI {
        -PI - rr
    } else {
        rr
    };
    sin_folded_run(v)
}

/// Fixed-point cosine.
pub fn fx_cos(x: i64) -> (r: i64)
    ensures
        r as int == f_cos(x as int),
        -(SCALE as int) <= r as int <= SCALE as int,
{
    let rr = fx_reduce(x);
    let a: i64 = if rr < 0 {
        -rr
    } else {
        rr
    };
    if a > HALF_PI {
        fx_neg(sin_folded_run(HALF_PI - (PI - a)))
    } else {
        sin_folded_run(HALF_PI - a)
    }
}

/// Fixed-point tangent.
pub fn fx_tan(x: i64) -> (r: i64)
    ensures
        r as int == f_tan(x as int),
{
    let c = fx_cos(x);
    if c <= 0 {
        i64::MAX
    } else {
        fx_div(fx_sin(x), c)
    }
}

/// Arctangent polynomial for arguments in `[-SCALE, SCALE]`.
pub fn fx_atan_unit(u: i64) -> (r: i64)
    ensures
        r as int == f_atan_unit(u as int),
{
    let au = fx_abs(u);
    fx_add(
        fx_mul(QUARTER_PI, u),
        fx_mul(fx_mul(u, fx_sub(SCALE, au)), fx_add(ATAN_C1, fx_mul(ATAN_C2, au))),
    )
}

/// Fixed-point two-argument arctangent.
pub fn fx_atan2(y: i64, x: i64) -> (r: i64)
    ensures
        r as int == f_atan2(y as int, x as int),
{
    if x == 0 && y == 0 {
        0
    } else {
        let ax = fx_abs(x);
        let ay = fx_abs(y);
        if ax >= ay {
            let q = if x > 0 {
                fx_div(y, x)
            } else {
                fx_div(fx_neg(y), fx_neg(x))
            };
            let base = fx_atan_unit(q);
            if x > 0 {
                base
            } else if y >= 0 {
                fx_add(base, PI)
            } else {
                fx_sub(base, PI)
            }
        } else {
            let q = if y > 0 {
                fx_div(x, y)
            } else {
                fx_div(fx_neg(x), fx_neg(y))
            };
            let base = fx_atan_unit(q);
            if y > 0 {
                fx_sub(HALF_PI, base)
            } else {
                fx_sub(fx_neg(HALF_PI), base)
            }
        }
    }
}

/// Fixed-point arccosine.
pub fn fx_acos(u: i64) -> (r: i64)
    ensures
        r as int == f_acos(u as int),
{
    let uc = fx_clamp(u, -SCALE, SCALE);
    let s = fx_sqrt(fx_sub(SCALE, fx_mul(uc, uc)));
    fx_atan2(s, uc)
}

/// Fixed-point natural logarithm.
pub fn fx_ln(v: i64) -> (r: i64)
    ensures
        r as int == f_ln(v as int),
    decreases (if v >= SCALE { v as int } else { 3 * (SCALE as int) - v as int }),
{
    if v <= 0 {
        0
    } else if v >= 2 * SCALE {
        fx_add(fx_ln(fx_divi(v, 2)), LN2)
    } else if v < SCALE {
        fx_sub(fx_ln(2 * v), LN2)
    } else {
        let t = fx_div(fx_sub(v, SCALE), fx_add(v, SCALE));
        let t2 = fx_mul(t, t);
        let t3 = fx_mul(t2, t);
        let t5 = fx_mul(t3, t2);
        let s = fx_add(fx_add(t, fx_divi(t3, 3)), fx_divi(t5, 5));
        fx_add(s, s)
    }
}

/// A value doubled (saturating) or halved `n` times, by the sign of `n`.
pub fn fx_scale2(v: i64, n: i64) -> (r: i64)
    ensures
        r as int == f_scale2(v as int, n as int),
    decreases (if n >= 0 { n as int } else { -(n as int) }),
{
    if n == 0 {
        v
    } else if n > 0 {
        fx_scale2(fx_add(v, v), n - 1)
    } else {
        fx_scale2(fx_divi(v, 2), n + 1)
    }
}

/// Fixed-point exponential.
pub fn fx_exp(x: i64) -> (r: i64)
    ensures
        r as int == f_exp(x as int),
{
    if x >= 32 * SCALE {
        i64::MAX
    } else if x <= -32 * SCALE {
        0
    } else {
        let n = fx_divi(x, LN2);
        let f = x - n * LN2;
        let f2 = fx_mul(f, f);
        let f3 = fx_mul(f2, f);
        let f4 = fx_mul(f3, f);
        let f5 = fx_mul(f4, f);
        let p = fx_add(
            fx_add(fx_add(fx_add(fx_add(SCALE, f), fx_divi(f2, 2)), fx_divi(f3, 6)), fx_divi(f4, 24)),
            fx_divi(f5, 120),
        );
        fx_scale2(p, n)
    }
}

/// Fixed-point power of a positive base.
pub fn fx_pow(b: i64, p: i64) -> (r: i64)
    ensures
        r as int == f_pow(b as int, p as int),
{
    if b <= 0 {
        0
    } else {
        fx_exp(fx_mul(p, fx_ln(b)))
    }
}

} // verus!
