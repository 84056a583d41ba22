//! Fixed-point scalars.
//!
//! A scalar is an `i64` holding `SCALE` units per real unit. Every operation
//! is total: sums saturate at the `i64` range and quotients round toward
//! negative infinity, and each executable operation is specified exactly by
//! the spec function of the same shape, so that every formula built from
//! these operations has a single mathematical meaning.

use vstd::prelude::*;
use vstd::arithmetic::div_mod::{lemma_fundamental_div_mod, lemma_fundamental_div_mod_converse};

verus! {

/// Number of fixed-point units in one real unit (six decimal places).
pub const SCALE: i64 = 1_000_000;

/// Saturation of an unbounded integer into the `i64` range.
pub open spec fn sat64(x: int) -> int {
    if x > i64::MAX as int {
        i64::MAX as int
    } else if x < i64::MIN as int {
        i64::MIN as int
    } else {
        x
    }
}

/// Saturating sum.
pub open spec fn f_add(a: int, b: int) -> int {
    sat64(a + b)
}

/// Saturating difference.
pub open spec fn f_sub(a: int, b: int) -> int {
    sat64(a - b)
}

/// Saturating negation.
pub open spec fn f_neg(a: int) -> int {
    sat64(-a)
}

/// Saturating absolute value.
pub open spec fn f_abs(a: int) -> int {
    if a < 0 {
        sat64(-a)
    } else {
        a
    }
}

/// The smaller of two scalars.
pub open spec fn f_min(a: int, b: int) -> int {
    if a <= b {
        a
    } else {
        b
    }
}

/// The larger of two scalars.
pub open spec fn f_max(a: int, b: int) -> int {
    if a >= b {
        a
    } else {
        b
    }
}

/// A value forced into the closed interval `[lo, hi]`.
pub open spec fn f_clamp(x: int, lo: int, hi: int) -> int {
    if x < lo {
        lo
    } else if x > hi {
        hi
    } else {
        x
    }
}

/// Fixed-point product: the exact product scaled back down, rounded toward
/// negative infinity, then saturated.
pub open spec fn f_mul(a: int, b: int) -> int {
    sat64((a * b) / (SCALE as int))
}

/// Fixed-point quotient for a positive divisor, rounded toward negative
/// infinity. A zero or negative divisor yields zero, keeping every formula
/// total.
pub open spec fn f_div(a: int, b: int) -> int {
    if b <= 0 {
        0
    } else {
        sat64((a * (SCALE as int)) / b)
    }
}

/// Quotient of a fixed-point value by a positive integer count, rounded
/// toward negative infinity; a zero or negative count yields zero.
pub open spec fn f_divi(a: int, d: int) -> int {
    if d <= 0 {
        0
    } else {
        a / d
    }
}

/// The integer square root, as a primitive recursion: the root of `n` is the
/// root of `n - 1`, raised by one when its successor's square still fits.
pub open spec fn sqrt_rec(n: nat) -> nat
    decreases n,
{
    if n == 0 {
        0
    } else {
        let r = sqrt_rec((n - 1) as nat);
        if (r + 1) * (r + 1) <= n {
            r + 1
        } else {
            r
        }
    }
}

/// Square root of a nonnegative fixed-point value (floor of the real root);
/// a negative argument yields zero.
pub open spec fn f_sqrt(a: int) -> int {
    if a <= 0 {
        0
    } else {
        sat64(sqrt_rec((a * (SCALE as int)) as nat) as int)
    }
}

/// The integer square root brackets its argument between consecutive squares.
pub proof fn lemma_sqrt_rec_bracket(n: nat)
    ensures
        sqrt_rec(n) * sqrt_rec(n) <= n,
        n < (sqrt_rec(n) + 1) * (sqrt_rec(n) + 1),
    decreases n,
{
    reveal_with_fuel(sqrt_rec, 2);
    if n == 0 {
        assert(sqrt_rec(n) == 0);
        assert(n < (sqrt_rec(n) + 1) * (sqrt_rec(n) + 1)) by (nonlinear_arith)
            requires
                n == 0,
                sqrt_rec(n) == 0,
            ;
    } else {
        lemma_sqrt_rec_bracket((n - 1) as nat);
        let r0 = sqrt_rec((n - 1) as nat);
        assert(r0 * r0 <= n - 1);
        assert(n - 1 < (r0 + 1) * (r0 + 1));
        if (r0 + 1) * (r0 + 1) <= n {
            assert(sqrt_rec(n) == r0 + 1);
            assert((r0 + 1) * (r0 + 1) < (r0 + 2) * (r0 + 2)) by (nonlinear_arith);
        } else {
            assert(sqrt_rec(n) == r0);
        }
        assert(sqrt_rec(n) * sqrt_rec(n) <= n);
        assert(n < (sqrt_rec(n) + 1) * (sqrt_rec(n) + 1));
    }
}

/// Any value bracketed between consecutive squares of `r` is rooted at `r`.
pub proof fn lemma_sqrt_unique(n: nat, r: nat)
    requires
        r * r <= n,
        n < (r + 1) * (r + 1),
    ensures
        r == sqrt_rec(n),
{
    lemma_sqrt_rec_bracket(n);
    let s = sqrt_rec(n);
    if r < s {
        assert(false) by (nonlinear_arith)
            requires
                r < s,
                s * s <= n,
                n < (r + 1) * (r + 1),
            ;
    }
    if s < r {
        assert(false) by (nonlinear_arith)
            requires
                s < r,
                r * r <= n,
                n < (s + 1) * (s + 1),
            ;
    }
}

/// An `i128` forced into the `i64` range.
pub fn sat_cast(x: i128) -> (r: i64)
    ensures
        r as int == sat64(x as int),
{
    if x > i64::MAX as i128 {
        i64::MAX
    } else if x < i64::MIN as i128 {
        i64::MIN
    } else {
        x as i64
    }
}

/// Floor division of a signed value by a positive divisor.
pub fn div_floor(a: i128, b: i128) -> (r: i128)
    requires
        b > 0,
        a > i128::MIN,
    ensures
        r as int == (a as int) / (b as int),
{
    if a >= 0 {
        let q: u128 = (a as u128) / (b as u128);
        proof {
            lemma_fundamental_div_mod((a as u128) as int, (b as u128) as int);
            assert(q <= a as u128) by (nonlinear_arith)
                requires
                    q == (a as u128) as int / (b as u128) as int,
                    (b as u128) as int >= 1,
                    (a as u128) as int >= 0,
                ;
        }
        q as i128
    } else {
        let na: u128 = (-a) as u128;
        let bu: u128 = b as u128;
        let qq: u128 = na / bu;
        let e: u128 = na % bu;
        proof {
            lemma_fundamental_div_mod(na as int, bu as int);
            assert(na as int == (bu as int) * (qq as int) + (e as int));
        }
        if e == 0 {
            proof {
                assert((-(qq as int)) * (b as int) == -((qq as int) * (bu as int))) by (nonlinear_arith)
                    requires
                        b as int == bu as int,
                    ;
                lemma_fundamental_div_mod_converse(a as int, b as int, -(qq as int), 0);
                assert(qq <= na) by (nonlinear_arith)
                    requires
                        na as int == (bu as int) * (qq as int) + (e as int),
                        e as int >= 0,
                        bu as int >= 1,
                        qq as int >= 0,
                    ;
            }
            -(qq as i128)
        } else {
            proof {
                assert(qq as int + 1 <= na as int) by (nonlinear_arith)
                    requires
                        na as int == (bu as int) * (qq as int) + (e as int),
                        e as int >= 1,
                        bu as int >= 1,
                        qq as int >= 0,
                    ;
                assert((-(qq as int) - 1) * (b as int) == -((qq as int) * (bu as int)) - (bu as int)) by (nonlinear_arith)
                    requires
                        b as int == bu as int,
                    ;
                lemma_fundamental_div_mod_converse(
                    a as int,
                    b as int,
                    -(qq as int) - 1,
                    (bu as int) - (e as int),
                );
            }
            let q1: u128 = qq + 1;
            -(q1 as i128)
        }
    }
}

/// Saturating fixed-point addition.
pub fn fx_add(a: i64, b: i64) -> (r: i64)
    ensures
        r as int == f_add(a as int, b as int),
{
    sat_cast(a as i128 + b as i128)
}

/// Saturating fixed-point subtraction.
pub fn fx_sub(a: i64, b: i64) -> (r: i64)
    ensures
        r as int == f_sub(a as int, b as int),
{
    sat_cast(a as i128 - b as i128)
}

/// Saturating fixed-point negation.
pub fn fx_neg(a: i64) -> (r: i64)
    ensures
        r as int == f_neg(a as int),
{
    sat_cast(-(a as i128))
}

/// Saturating fixed-point absolute value.
pub fn fx_abs(a: i64) -> (r: i64)
    ensures
        r as int == f_abs(a as int),
{
    if a < 0 {
        sat_cast(-(a as i128))
    } else {
        a
    }
}

/// The smaller of two fixed-point scalars.
pub fn fx_min(a: i64, b: i64) -> (r: i64)
    ensures
        r as int == f_min(a as int, b as int),
{
    if a <= b {
        a
    } else {
        b
    }
}

/// The larger of two fixed-point scalars.
pub fn fx_max(a: i64, b: i64) -> (r: i64)
    ensures
        r as int == f_max(a as int, b as int),
{
    if a >= b {
        a
    } else {
        b
    }
}

/// A fixed-point scalar forced into `[lo, hi]`.
pub fn fx_clamp(x: i64, lo: i64, hi: i64) -> (r: i64)
    requires
        lo <= hi,
    ensures
        r as int == f_clamp(x as int, lo as int, hi as int),
{
    if x < lo {
        lo
    } else if x > hi {
        hi
    } else {
        x
    }
}

/// Saturating fixed-point multiplication.
pub fn fx_mul(a: i64, b: i64) -> (r: i64)
    ensures
        r as int == f_mul(a as int, b as int),
{
    proof {
        assert((a as int) * (b as int) <= 0x40000000000000000000000000000000int
            && (a as int) * (b as int) >= -0x40000000000000000000000000000000int) by (nonlinear_arith);
    }
    let p: i128 = (a as i128) * (b as i128);
    let q: i128 = div_floor(p, 1_000_000);
    sat_cast(q)
}

/// Saturating fixed-point division by a positive divisor; a zero or negative
/// divisor yields zero.
pub fn fx_div(a: i64, b: i64) -> (r: i64)
    ensures
        r as int == f_div(a as int, b as int),
{
    if b <= 0 {
        0
    } else {
        let p: i128 = (a as i128) * 1_000_000;
        let q: i128 = div_floor(p, b as i128);
        sat_cast(q)
    }
}

/// Fixed-point value divided by a positive integer count; a zero or negative
/// count yields zero.
pub fn fx_divi(a: i64, d: i64) -> (r: i64)
    ensures
        r as int == f_divi(a as int, d as int),
{
    if d <= 0 {
        0
    } else {
        let q: i128 = div_floor(a as i128, d as i128);
        proof {
            lemma_fundamental_div_mod(a as int, d as int);
            assert(i64::MIN <= q <= i64::MAX) by (nonlinear_arith)
                requires
                    a as int == (d as int) * (q as int) + (a as int) % (d as int),
                    0 <= (a as int) % (d as int) < d as int,
                    d as int >= 1,
                    i64::MIN <= a as int <= i64::MAX,
                ;
        }
        q as i64
    }
}

/// The integer square root of an unsigned 128-bit value, found by binary
/// search over the bracketing invariant.
pub fn isqrt(n: u128) -> (r: u64)
    ensures
        r as nat == sqrt_rec(n as nat),
{
    let mut lo: u128 = 0;
    let mut hi: u128 = 0x10000000000000000;
    proof {
        assert((0x10000000000000000 as int) * (0x10000000000000000 as int)
            > u128::MAX as int) by (nonlinear_arith);
    }
    while hi - lo > 1
        invariant
            lo < hi,
            hi <= 0x10000000000000000,
            (lo as int) * (lo as int) <= n as int,
            (n as int) < (hi as int) * (hi as int),
        decreases hi - lo,
    {
        let mid: u128 = lo + (hi - lo) / 2;
        proof {
            assert(mid < hi);
            assert((mid as int) * (mid as int) <= u128::MAX as int) by (nonlinear_arith)
                requires
                    mid as int <= 0xffffffffffffffff,
                ;
        }
        let sq: u128 = mid * mid;
        if sq <= n {
            lo = mid;
        } else {
            hi = mid;
        }
    }
    proof {
        lemma_sqrt_unique(n as nat, lo as nat);
    }
    lo as u64
}

/// Square root of a nonnegative fixed-point scalar (floor of the real root);
/// a negative argument yields zero.
pub fn fx_sqrt(a: i64) -> (r: i64)
    ensures
        r as int == f_sqrt(a as int),
{
    if a <= 0 {
        0
    } else {
        let m: u128 = (a as u128) * 1_000_000;
        let r0: u64 = isqrt(m);
        proof {
            lemma_sqrt_rec_bracket(m as nat);
            assert(sqrt_rec(m as nat) < 0x8000000000000000) by (nonlinear_arith)
                requires
                    sqrt_rec(m as nat) * sqrt_rec(m as nat) <= m as int,
                    m as int <= 0x7fffffffffffffff * 1_000_000,
                ;
        }
        r0 as i64
    }
}

/// The fixed-point scalar holding a small integer exactly.
pub fn fx_from_int(x: i32) -> (r: i64)
    ensures
        r as int == (x as int) * (SCALE as int),
{
    (x as i64) * 1_000_000
}

/// The fixed-point scalar holding an unsigned integer exactly.
pub fn fx_from_u32(x: u32) -> (r: i64)
    ensures
        r as int == (x as int) * (SCALE as int),
{
    (x as i64) * 1_000_000
}

} // verus!
