//! Vectors and quaternions over fixed-point scalars.
//!
//! `Vec3` and `Quat` are the executable value types; `V3` and `Q4` are their
//! mathematical views with unbounded integer components. Every operation is
//! specified exactly by a spec function over the views.

use vstd::prelude::*;
use vstd::arithmetic::div_mod::lemma_fundamental_div_mod;
use crate::fx::{
    SCALE, f_abs, f_add, f_div, f_divi, f_max, f_min, f_mul, f_neg, f_sub, fx_abs, fx_add, fx_div,
    fx_divi, fx_max, fx_min, fx_mul, fx_neg, fx_sub, isqrt, sat64, sqrt_rec, lemma_sqrt_rec_bracket,
};
use crate::trig::{f_cos, f_sin, fx_cos, fx_sin};

verus! {

/// Mathematical view of a vector: three unbounded integer components, each
/// holding `SCALE` units per real unit.
#[verifier::ext_equal]
pub struct V3 {
    pub x: int,
    pub y: int,
    pub z: int,
}

/// Mathematical view of a quaternion.
#[verifier::ext_equal]
pub struct Q4 {
    pub x: int,
    pub y: int,
    pub z: int,
    pub w: int,
}

/// A three-component vector of fixed-point scalars.
#[derive(Clone, Copy, Debug, PartialEq, Eq, Structural)]
pub struct Vec3 {
    pub x: i64,
    pub y: i64,
    pub z: i64,
}

/// A rotation quaternion of fixed-point scalars. Callers keep it normalized;
/// no operation renormalizes.
#[derive(Clone, Copy, Debug, PartialEq, Eq, Structural)]
pub struct Quat {
    pub x: i64,
    pub y: i64,
    pub z: i64,
    pub w: i64,
}

impl View for Vec3 {
    type V = V3;

    open spec fn view(&self) -> V3 {
        V3 { x: self.x as int, y: self.y as int, z: self.z as int }
    }
}

impl View for Quat {
    type V = Q4;

    open spec fn view(&self) -> Q4 {
        Q4 { x: self.x as int, y: self.y as int, z: self.z as int, w: self.w as int }
    }
}

/// Componentwise sum.
pub open spec fn v_add(a: V3, b: V3) -> V3 {
    V3 { x: f_add(a.x, b.x), y: f_add(a.y, b.y), z: f_add(a.z, b.z) }
}

/// Componentwise difference.
pub open spec fn v_sub(a: V3, b: V3) -> V3 {
    V3 { x: f_sub(a.x, b.x), y: f_sub(a.y, b.y), z: f_sub(a.z, b.z) }
}

/// Componentwise negation.
pub open spec fn v_neg(a: V3) -> V3 {
    V3 { x: f_neg(a.x), y: f_neg(a.y), z: f_neg(a.z) }
}

/// Componentwise absolute value.
pub open spec fn v_abs(a: V3) -> V3 {
    V3 { x: f_abs(a.x), y: f_abs(a.y), z: f_abs(a.z) }
}

/// Componentwise minimum.
pub open spec fn v_min(a: V3, b: V3) -> V3 {
    V3 { x: f_min(a.x, b.x), y: f_min(a.y, b.y), z: f_min(a.z, b.z) }
}

/// Componentwise maximum.
pub open spec fn v_max(a: V3, b: V3) -> V3 {
    V3 { x: f_max(a.x, b.x), y: f_max(a.y, b.y), z: f_max(a.z, b.z) }
}

/// A vector scaled by a fixed-point scalar.
pub open spec fn v_scale(a: V3, s: int) -> V3 {
    V3 { x: f_mul(a.x, s), y: f_mul(a.y, s), z: f_mul(a.z, s) }
}

/// Componentwise product.
pub open spec fn v_mul(a: V3, b: V3) -> V3 {
    V3 { x: f_mul(a.x, b.x), y: f_mul(a.y, b.y), z: f_mul(a.z, b.z) }
}

/// Componentwise quotient (each component by the matching divisor).
pub open spec fn v_div(a: V3, b: V3) -> V3 {
    V3 { x: f_div(a.x, b.x), y: f_div(a.y, b.y), z: f_div(a.z, b.z) }
}

/// A scalar subtracted from every component.
pub open spec fn v_sub_scalar(a: V3, s: int) -> V3 {
    V3 { x: f_sub(a.x, s), y: f_sub(a.y, s), z: f_sub(a.z, s) }
}

/// Fixed-point dot product, summed left to right.
pub open spec fn v_dot(a: V3, b: V3) -> int {
    f_add(f_add(f_mul(a.x, b.x), f_mul(a.y, b.y)), f_mul(a.z, b.z))
}

/// Fixed-point cross product.
pub open spec fn v_cross(a: V3, b: V3) -> V3 {
    V3 {
        x: f_sub(f_mul(a.y, b.z), f_mul(a.z, b.y)),
        y: f_sub(f_mul(a.z, b.x), f_mul(a.x, b.z)),
        z: f_sub(f_mul(a.x, b.y), f_mul(a.y, b.x)),
    }
}

/// Euclidean length: the integer square root of the exact sum of squared
/// components, saturated.
pub open spec fn v_length(a: V3) -> int {
    sat64(sqrt_rec((a.x * a.x + a.y * a.y + a.z * a.z) as nat) as int)
}

/// The vector scaled to unit length (within rounding); the zero vector stays
/// zero.
pub open spec fn v_normalize(a: V3) -> V3 {
    let l = v_length(a);
    if l <= 0 {
        V3 { x: 0, y: 0, z: 0 }
    } else {
        V3 { x: f_div(a.x, l), y: f_div(a.y, l), z: f_div(a.z, l) }
    }
}

/// Distance between two points.
pub open spec fn v_distance(a: V3, b: V3) -> int {
    v_length(v_sub(a, b))
}

/// Linear interpolation `a + (b - a) * t`, componentwise.
pub open spec fn v_lerp(a: V3, b: V3, t: int) -> V3 {
    V3 {
        x: f_add(a.x, f_mul(f_sub(b.x, a.x), t)),
        y: f_add(a.y, f_mul(f_sub(b.y, a.y), t)),
        z: f_add(a.z, f_mul(f_sub(b.z, a.z), t)),
    }
}

/// The largest component.
pub open spec fn v_max_element(a: V3) -> int {
    f_max(f_max(a.x, a.y), a.z)
}

/// Exact (unrounded) dot product over the views.
pub open spec fn v_dot_exact(a: V3, b: V3) -> int {
    a.x * b.x + a.y * b.y + a.z * b.z
}

/// Exact (unrounded) cross product over the views.
pub open spec fn v_cross_exact(a: V3, b: V3) -> V3 {
    V3 {
        x: a.y * b.z - a.z * b.y,
        y: a.z * b.x - a.x * b.z,
        z: a.x * b.y - a.y * b.x,
    }
}

/// No component of a vector exceeds the vector's length.
pub proof fn lemma_component_within_length(a: V3)
    requires
        i64::MIN <= a.x <= i64::MAX,
        i64::MIN <= a.y <= i64::MAX,
        i64::MIN <= a.z <= i64::MAX,
    ensures
        f_abs(a.x) <= v_length(a),
        f_abs(a.y) <= v_length(a),
        f_abs(a.z) <= v_length(a),
{
    assert(a.x * a.x + a.y * a.y + a.z * a.z >= 0) by (nonlinear_arith);
    let m = (a.x * a.x + a.y * a.y + a.z * a.z) as nat;
    lemma_sqrt_rec_bracket(m);
    let r = sqrt_rec(m);
    let ax = if a.x < 0 { -a.x } else { a.x };
    let ay = if a.y < 0 { -a.y } else { a.y };
    let az = if a.z < 0 { -a.z } else { a.z };
    assert(ax <= r && ay <= r && az <= r) by (nonlinear_arith)
        requires
            m == a.x * a.x + a.y * a.y + a.z * a.z,
            m < (r + 1) * (r + 1),
            ax == (if a.x < 0 { -a.x } else { a.x }),
            ay == (if a.y < 0 { -a.y } else { a.y }),
            az == (if a.z < 0 { -a.z } else { a.z }),
            r >= 0,
        ;
    // saturation can only lower a magnitude, and the length saturates at the
    // very top of the range, above every saturated component
    assert(f_abs(a.x) <= ax && f_abs(a.y) <= ay && f_abs(a.z) <= az);
}

/// Every component of a normalized vector lies within one real unit: the
/// camera's basis vectors, always outputs of `v_normalize`, can never blow
/// up, whatever rotations preceded them.
pub proof fn lemma_normalize_components_bounded(a: V3)
    requires
        -i64::MAX <= a.x <= i64::MAX,
        -i64::MAX <= a.y <= i64::MAX,
        -i64::MAX <= a.z <= i64::MAX,
    ensures
        -(SCALE as int) <= v_normalize(a).x <= SCALE as int,
        -(SCALE as int) <= v_normalize(a).y <= SCALE as int,
        -(SCALE as int) <= v_normalize(a).z <= SCALE as int,
{
    let l = v_length(a);
    if l > 0 {
        lemma_component_within_length(a);
        lemma_div_component(a.x, l);
        lemma_div_component(a.y, l);
        lemma_div_component(a.z, l);
    }
}

/// A quotient of a component by a length at least as large stays within one
/// unit in either direction.
proof fn lemma_div_component(x: int, l: int)
    requires
        l > 0,
        -l <= x <= l,
    ensures
        -(SCALE as int) <= f_div(x, l) <= SCALE as int,
        f_div(x, l) == (x * (SCALE as int)) / l,
{
    let s = SCALE as int;
    assert(-(l * s) <= x * s <= l * s) by (nonlinear_arith)
        requires
            -l <= x <= l,
            s > 0,
        ;
    vstd::arithmetic::div_mod::lemma_div_is_ordered(x * s, l * s, l);
    vstd::arithmetic::div_mod::lemma_div_is_ordered(-(l * s), x * s, l);
    vstd::arithmetic::div_mod::lemma_div_multiples_vanish(s, l);
    vstd::arithmetic::div_mod::lemma_div_multiples_vanish(-s, l);
    assert((l * s) / l == s);
    assert((l * -s) / l == -s);
    assert(-(l * s) == l * -s) by (nonlinear_arith);
}

/// The exact cross product is orthogonal to both factors. The camera's basis
/// construction (a cross product followed by normalization) realizes this up
/// to fixed-point rounding.
pub proof fn lemma_cross_orthogonal(a: V3, b: V3)
    ensures
        v_dot_exact(v_cross_exact(a, b), a) == 0,
        v_dot_exact(v_cross_exact(a, b), b) == 0,
{
    assert((a.y * b.z - a.z * b.y) * a.x + (a.z * b.x - a.x * b.z) * a.y + (a.x * b.y - a.y * b.x)
        * a.z == 0) by (nonlinear_arith);
    assert((a.y * b.z - a.z * b.y) * b.x + (a.z * b.x - a.x * b.z) * b.y + (a.x * b.y - a.y * b.x)
        * b.z == 0) by (nonlinear_arith);
}

/// Normalizing a vector whose scaled components sit within `2 * SCALE` of an
/// exact vector orthogonal to `w` yields a vector whose fixed-point dot with
/// `w` is at most 32 raw units, provided the vector is at least half a unit
/// long and `w` is unit-bounded.
proof fn lemma_normalized_dot_small(c: V3, w: V3, ex: int, ey: int, ez: int)
    requires
        -(SCALE as int) <= w.x <= SCALE as int,
        -(SCALE as int) <= w.y <= SCALE as int,
        -(SCALE as int) <= w.z <= SCALE as int,
        -2 * (SCALE as int) <= c.x <= 2 * (SCALE as int),
        -2 * (SCALE as int) <= c.y <= 2 * (SCALE as int),
        -2 * (SCALE as int) <= c.z <= 2 * (SCALE as int),
        -2 * (SCALE as int) <= (SCALE as int) * c.x - ex <= 2 * (SCALE as int),
        -2 * (SCALE as int) <= (SCALE as int) * c.y - ey <= 2 * (SCALE as int),
        -2 * (SCALE as int) <= (SCALE as int) * c.z - ez <= 2 * (SCALE as int),
        ex * w.x + ey * w.y + ez * w.z == 0,
        v_length(c) >= (SCALE as int) / 2,
    ensures
        f_abs(v_dot(v_normalize(c), w)) <= 32,
{
    let s = SCALE as int;
    let l = v_length(c);
    lemma_component_within_length(c);
    assert(f_abs(c.x) <= l && f_abs(c.y) <= l && f_abs(c.z) <= l);
    // the rounded vector is still nearly orthogonal to w: each scaled
    // component is within 2 units of the exact one, whose dot with w vanishes
    assert(-2 * s * s <= s * (c.x * w.x) - ex * w.x <= 2 * s * s) by (nonlinear_arith)
        requires
            -2 * s <= s * c.x - ex <= 2 * s,
            -s <= w.x <= s,
            s == 1_000_000,
        ;
    assert(-2 * s * s <= s * (c.y * w.y) - ey * w.y <= 2 * s * s) by (nonlinear_arith)
        requires
            -2 * s <= s * c.y - ey <= 2 * s,
            -s <= w.y <= s,
            s == 1_000_000,
        ;
    assert(-2 * s * s <= s * (c.z * w.z) - ez * w.z <= 2 * s * s) by (nonlinear_arith)
        requires
            -2 * s <= s * c.z - ez <= 2 * s,
            -s <= w.z <= s,
            s == 1_000_000,
        ;
    assert(-6 * s <= c.x * w.x + c.y * w.y + c.z * w.z <= 6 * s);
    // normalization divides each scaled component by the length
    lemma_div_component(c.x, l);
    lemma_div_component(c.y, l);
    lemma_div_component(c.z, l);
    let qx = (c.x * s) / l;
    let qy = (c.y * s) / l;
    let qz = (c.z * s) / l;
    lemma_fundamental_div_mod(c.x * s, l);
    lemma_fundamental_div_mod(c.y * s, l);
    lemma_fundamental_div_mod(c.z * s, l);
    vstd::arithmetic::div_mod::lemma_mod_bound(c.x * s, l);
    vstd::arithmetic::div_mod::lemma_mod_bound(c.y * s, l);
    vstd::arithmetic::div_mod::lemma_mod_bound(c.z * s, l);
    let rx = (c.x * s) % l;
    let ry = (c.y * s) % l;
    let rz = (c.z * s) % l;
    assert(l * qx == c.x * s - rx && l * qy == c.y * s - ry && l * qz == c.z * s - rz);
    // dividing out the length keeps the dot small: the remainders cost at
    // most one unit of w each, and the length is at least half a unit
    let t = qx * w.x + qy * w.y + qz * w.z;
    assert(l * (qx * w.x) == s * (c.x * w.x) - rx * w.x) by (nonlinear_arith)
        requires
            l * qx == c.x * s - rx,
            s == 1_000_000,
        ;
    assert(l * (qy * w.y) == s * (c.y * w.y) - ry * w.y) by (nonlinear_arith)
        requires
            l * qy == c.y * s - ry,
            s == 1_000_000,
        ;
    assert(l * (qz * w.z) == s * (c.z * w.z) - rz * w.z) by (nonlinear_arith)
        requires
            l * qz == c.z * s - rz,
            s == 1_000_000,
        ;
    assert(-(l * s) <= rx * w.x <= l * s && -(l * s) <= ry * w.y <= l * s && -(l * s) <= rz * w.z
        <= l * s) by (nonlinear_arith)
        requires
            0 <= rx < l,
            0 <= ry < l,
            0 <= rz < l,
            -s <= w.x <= s,
            -s <= w.y <= s,
            -s <= w.z <= s,
        ;
    assert(l * t == l * (qx * w.x) + l * (qy * w.y) + l * (qz * w.z)) by (nonlinear_arith)
        requires
            t == qx * w.x + qy * w.y + qz * w.z,
        ;
    assert(s * s <= 2 * (l * s)) by (nonlinear_arith)
        requires
            l >= s / 2,
            s == 1_000_000,
        ;
    assert(-15 * (l * s) <= l * t <= 15 * (l * s));
    assert(-15 * s <= t <= 15 * s) by (nonlinear_arith)
        requires
            -15 * (l * s) <= l * t <= 15 * (l * s),
            l > 0,
            s == 1_000_000,
        ;
    let u = v_normalize(c);
    assert(u.x == qx && u.y == qy && u.z == qz);
    // the three unit-bounded products survive the final rounding
    assert(-(s * s) <= qx * w.x <= s * s && -(s * s) <= qy * w.y <= s * s && -(s * s) <= qz * w.z
        <= s * s) by (nonlinear_arith)
        requires
            -s <= qx <= s,
            -s <= qy <= s,
            -s <= qz <= s,
            -s <= w.x <= s,
            -s <= w.y <= s,
            -s <= w.z <= s,
        ;
    assert(f_abs(v_dot(u, w)) <= 32);
}

/// The fixed-point cross product of two unit-bounded vectors has components
/// within two units: no step of it can saturate.
pub proof fn lemma_cross_components_bounded(a: V3, b: V3)
    requires
        -(SCALE as int) <= a.x <= SCALE as int,
        -(SCALE as int) <= a.y <= SCALE as int,
        -(SCALE as int) <= a.z <= SCALE as int,
        -(SCALE as int) <= b.x <= SCALE as int,
        -(SCALE as int) <= b.y <= SCALE as int,
        -(SCALE as int) <= b.z <= SCALE as int,
    ensures
        -2 * (SCALE as int) <= v_cross(a, b).x <= 2 * (SCALE as int),
        -2 * (SCALE as int) <= v_cross(a, b).y <= 2 * (SCALE as int),
        -2 * (SCALE as int) <= v_cross(a, b).z <= 2 * (SCALE as int),
{
    let s = SCALE as int;
    assert(-(s * s) <= a.y * b.z <= s * s && -(s * s) <= a.z * b.y <= s * s && -(s * s) <= a.z
        * b.x <= s * s && -(s * s) <= a.x * b.z <= s * s && -(s * s) <= a.x * b.y <= s * s && -(s
        * s) <= a.y * b.x <= s * s) by (nonlinear_arith)
        requires
            -s <= a.x <= s,
            -s <= a.y <= s,
            -s <= a.z <= s,
            -s <= b.x <= s,
            -s <= b.y <= s,
            -s <= b.z <= s,
        ;
}

/// The camera's re-orthonormalization, quantitatively: normalizing the
/// fixed-point cross product of two unit-bounded vectors yields a vector
/// whose fixed-point dot with either factor is at most 32 raw units (a few
/// hundred-thousandths of a unit), whenever the cross product is at least
/// half a unit long — that is, the factors are not close to parallel. This
/// is how `right` stays orthogonal to the viewing direction, and `up` to
/// both, across any sequence of camera rotations.
pub proof fn lemma_normalized_cross_nearly_orthogonal(a: V3, b: V3)
    requires
        -(SCALE as int) <= a.x <= SCALE as int,
        -(SCALE as int) <= a.y <= SCALE as int,
        -(SCALE as int) <= a.z <= SCALE as int,
        -(SCALE as int) <= b.x <= SCALE as int,
        -(SCALE as int) <= b.y <= SCALE as int,
        -(SCALE as int) <= b.z <= SCALE as int,
        v_length(v_cross(a, b)) >= (SCALE as int) / 2,
    ensures
        f_abs(v_dot(v_normalize(v_cross(a, b)), a)) <= 32,
        f_abs(v_dot(v_normalize(v_cross(a, b)), b)) <= 32,
{
    let s = SCALE as int;
    let c = v_cross(a, b);
    let e = v_cross_exact(a, b);
    lemma_cross_orthogonal(a, b);
    // each product of unit-bounded components stays within one square unit,
    // so no rounded cross component saturates and each sits within two raw
    // units of the exact component over SCALE
    assert(-(s * s) <= a.y * b.z <= s * s && -(s * s) <= a.z * b.y <= s * s && -(s * s) <= a.z
        * b.x <= s * s && -(s * s) <= a.x * b.z <= s * s && -(s * s) <= a.x * b.y <= s * s && -(s
        * s) <= a.y * b.x <= s * s) by (nonlinear_arith)
        requires
            -s <= a.x <= s,
            -s <= a.y <= s,
            -s <= a.z <= s,
            -s <= b.x <= s,
            -s <= b.y <= s,
            -s <= b.z <= s,
        ;
    assert(-2 * s <= c.x <= 2 * s && -2 * s <= s * c.x - e.x <= 2 * s);
    assert(-2 * s <= c.y <= 2 * s && -2 * s <= s * c.y - e.y <= 2 * s);
    assert(-2 * s <= c.z <= 2 * s && -2 * s <= s * c.z - e.z <= 2 * s);
    lemma_normalized_dot_small(c, a, e.x, e.y, e.z);
    lemma_normalized_dot_small(c, b, e.x, e.y, e.z);
}

impl Vec3 {
    /// The vector with the given fixed-point components.
    pub fn new(x: i64, y: i64, z: i64) -> (r: Vec3)
        ensures
            r@ == (V3 { x: x as int, y: y as int, z: z as int }),
    {
        Vec3 { x, y, z }
    }

    /// Componentwise sum.
    pub fn add(&self, other: Vec3) -> (r: Vec3)
        ensures
            r@ == v_add(self@, other@),
    {
        Vec3 { x: fx_add(self.x, other.x), y: fx_add(self.y, other.y), z: fx_add(self.z, other.z) }
    }

    /// Componentwise difference.
    pub fn sub(&self, other: Vec3) -> (r: Vec3)
        ensures
            r@ == v_sub(self@, other@),
    {
        Vec3 { x: fx_sub(self.x, other.x), y: fx_sub(self.y, other.y), z: fx_sub(self.z, other.z) }
    }

    /// Componentwise negation.
    pub fn neg(&self) -> (r: Vec3)
        ensures
            r@ == v_neg(self@),
    {
        Vec3 { x: fx_neg(self.x), y: fx_neg(self.y), z: fx_neg(self.z) }
    }

    /// Componentwise absolute value.
    pub fn abs(&self) -> (r: Vec3)
        ensures
            r@ == v_abs(self@),
    {
        Vec3 { x: fx_abs(self.x), y: fx_abs(self.y), z: fx_abs(self.z) }
    }

    /// Componentwise minimum.
    pub fn min(&self, other: Vec3) -> (r: Vec3)
        ensures
            r@ == v_min(self@, other@),
    {
        Vec3 { x: fx_min(self.x, other.x), y: fx_min(self.y, other.y), z: fx_min(self.z, other.z) }
    }

    /// Componentwise maximum.
    pub fn max(&self, other: Vec3) -> (r: Vec3)
        ensures
            r@ == v_max(self@, other@),
    {
        Vec3 { x: fx_max(self.x, other.x), y: fx_max(self.y, other.y), z: fx_max(self.z, other.z) }
    }

    /// The vector scaled by a fixed-point scalar.
    pub fn scale(&self, s: i64) -> (r: Vec3)
        ensures
            r@ == v_scale(self@, s as int),
    {
        Vec3 { x: fx_mul(self.x, s), y: fx_mul(self.y, s), z: fx_mul(self.z, s) }
    }

    /// Componentwise product.
    pub fn mul(&self, other: Vec3) -> (r: Vec3)
        ensures
            r@ == v_mul(self@, other@),
    {
        Vec3 { x: fx_mul(self.x, other.x), y: fx_mul(self.y, other.y), z: fx_mul(self.z, other.z) }
    }

    /// Componentwise quotient.
    pub fn div(&self, other: Vec3) -> (r: Vec3)
        ensures
            r@ == v_div(self@, other@),
    {
        Vec3 { x: fx_div(self.x, other.x), y: fx_div(self.y, other.y), z: fx_div(self.z, other.z) }
    }

    /// A scalar subtracted from every component.
    pub fn sub_scalar(&self, s: i64) -> (r: Vec3)
        ensures
            r@ == v_sub_scalar(self@, s as int),
    {
        Vec3 { x: fx_sub(self.x, s), y: fx_sub(self.y, s), z: fx_sub(self.z, s) }
    }

    /// Fixed-point dot product.
    pub fn dot(&self, other: Vec3) -> (r: i64)
        ensures
            r as int == v_dot(self@, other@),
    {
        fx_add(
            fx_add(fx_mul(self.x, other.x), fx_mul(self.y, other.y)),
            fx_mul(self.z, other.z),
        )
    }

    /// Fixed-point cross product.
    pub fn cross(&self, other: Vec3) -> (r: Vec3)
        ensures
            r@ == v_cross(self@, other@),
    {
        Vec3 {
            x: fx_sub(fx_mul(self.y, other.z), fx_mul(self.z, other.y)),
            y: fx_sub(fx_mul(self.z, other.x), fx_mul(self.x, other.z)),
            z: fx_sub(fx_mul(self.x, other.y), fx_mul(self.y, other.x)),
        }
    }

    /// Euclidean length.
    pub fn length(&self) -> (r: i64)
        ensures
            r as int == v_length(self@),
            r >= 0,
    {
        proof {
            assert(0 <= (self.x as int) * (self.x as int) <= 0x40000000000000000000000000000000int
                && 0 <= (self.y as int) * (self.y as int) <= 0x40000000000000000000000000000000int
                && 0 <= (self.z as int) * (self.z as int)
                <= 0x40000000000000000000000000000000int) by (nonlinear_arith);
        }
        let xx: u128 = ((self.x as i128) * (self.x as i128)) as u128;
        let yy: u128 = ((self.y as i128) * (self.y as i128)) as u128;
        let zz: u128 = ((self.z as i128) * (self.z as i128)) as u128;
        let m: u128 = xx + yy + zz;
        let r0: u64 = isqrt(m);
        if r0 > i64::MAX as u64 {
            i64::MAX
        } else {
            r0 as i64
        }
    }

    /// The vector scaled to unit length (within rounding); the zero vector
    /// stays zero.
    pub fn normalize(&self) -> (r: Vec3)
        ensures
            r@ == v_normalize(self@),
    {
        let l = self.length();
        if l <= 0 {
            Vec3 { x: 0, y: 0, z: 0 }
        } else {
            Vec3 { x: fx_div(self.x, l), y: fx_div(self.y, l), z: fx_div(self.z, l) }
        }
    }

    /// Distance to another point.
    pub fn distance(&self, other: Vec3) -> (r: i64)
        ensures
            r as int == v_distance(self@, other@),
    {
        self.sub(other).length()
    }

    /// Linear interpolation toward `other` by the fixed-point factor `t`.
    pub fn lerp(&self, other: Vec3, t: i64) -> (r: Vec3)
        ensures
            r@ == v_lerp(self@, other@, t as int),
    {
        Vec3 {
            x: fx_add(self.x, fx_mul(fx_sub(other.x, self.x), t)),
            y: fx_add(self.y, fx_mul(fx_sub(other.y, self.y), t)),
            z: fx_add(self.z, fx_mul(fx_sub(other.z, self.z), t)),
        }
    }

    /// The largest component.
    pub fn max_element(&self) -> (r: i64)
        ensures
            r as int == v_max_element(self@),
    {
        fx_max(fx_max(self.x, self.y), self.z)
    }
}

/// Quaternion product, Hamilton convention.
pub open spec fn q_mul(a: Q4, b: Q4) -> Q4 {
    Q4 {
        x: f_sub(f_add(f_add(f_mul(a.w, b.x), f_mul(a.x, b.w)), f_mul(a.y, b.z)), f_mul(a.z, b.y)),
        y: f_sub(f_add(f_add(f_mul(a.w, b.y), f_mul(a.y, b.w)), f_mul(a.z, b.x)), f_mul(a.x, b.z)),
        z: f_sub(f_add(f_add(f_mul(a.w, b.z), f_mul(a.z, b.w)), f_mul(a.x, b.y)), f_mul(a.y, b.x)),
        w: f_sub(f_sub(f_sub(f_mul(a.w, b.w), f_mul(a.x, b.x)), f_mul(a.y, b.y)), f_mul(a.z, b.z)),
    }
}

/// A vector rotated by a quaternion:
/// `v + 2 * w * (q_v x v) + 2 * (q_v x (q_v x v))`.
pub open spec fn q_rotate(q: Q4, v: V3) -> V3 {
    let qv = V3 { x: q.x, y: q.y, z: q.z };
    let uv = v_cross(qv, v);
    let uuv = v_cross(qv, uv);
    v_add(v_add(v_scale(v_scale(uv, q.w), 2 * (SCALE as int)), v_scale(uuv, 2 * (SCALE as int))), v)
}

/// Conjugate: the vector part negated.
pub open spec fn q_conjugate(q: Q4) -> Q4 {
    Q4 { x: f_neg(q.x), y: f_neg(q.y), z: f_neg(q.z), w: q.w }
}

/// Inverse: the conjugate divided by the squared norm.
pub open spec fn q_inverse(q: Q4) -> Q4 {
    let l = f_add(
        f_add(f_add(f_mul(q.x, q.x), f_mul(q.y, q.y)), f_mul(q.z, q.z)),
        f_mul(q.w, q.w),
    );
    Q4 { x: f_div(f_neg(q.x), l), y: f_div(f_neg(q.y), l), z: f_div(f_neg(q.z), l), w: f_div(q.w, l) }
}

/// The identity rotation.
pub open spec fn q_identity() -> Q4 {
    Q4 { x: 0, y: 0, z: 0, w: SCALE as int }
}

/// The rotation of `angle` fixed-point radians about `axis` (a unit vector):
/// the axis scaled by the sine of the half angle, with the cosine as the
/// scalar part.
pub open spec fn q_from_axis_angle(axis: V3, angle: int) -> Q4 {
    let half = f_divi(angle, 2);
    let s = f_sin(half);
    Q4 { x: f_mul(axis.x, s), y: f_mul(axis.y, s), z: f_mul(axis.z, s), w: f_cos(half) }
}

/// A zero angle yields exactly the identity rotation, whatever the axis:
/// the fixed-point sine of zero is zero and the cosine of zero is one.
pub proof fn lemma_zero_angle_is_identity(axis: V3)
    ensures
        q_from_axis_angle(axis, 0) == q_identity(),
{
    assert(f_divi(0, 2) == 0);
    assert(crate::trig::f_reduce(0) == 0);
    assert(f_sin(0) == 0);
    assert(f_cos(0) == SCALE as int);
    assert(f_mul(axis.x, 0) == 0);
    assert(f_mul(axis.y, 0) == 0);
    assert(f_mul(axis.z, 0) == 0);
}

impl Quat {
    /// The rotation of `angle` fixed-point radians about the unit `axis`.
    pub fn from_axis_angle(axis: Vec3, angle: i64) -> (r: Quat)
        ensures
            r@ == q_from_axis_angle(axis@, angle as int),
    {
        let half = fx_divi(angle, 2);
        let s = fx_sin(half);
        Quat {
            x: fx_mul(axis.x, s),
            y: fx_mul(axis.y, s),
            z: fx_mul(axis.z, s),
            w: fx_cos(half),
        }
    }

    /// The vector rotated by this quaternion.
    pub fn rotate(&self, v: Vec3) -> (r: Vec3)
        ensures
            r@ == q_rotate(self@, v@),
    {
        let qv = Vec3 { x: self.x, y: self.y, z: self.z };
        let uv = qv.cross(v);
        let uuv = qv.cross(uv);
        uv.scale(self.w).scale(2 * SCALE).add(uuv.scale(2 * SCALE)).add(v)
    }

    /// The inverse rotation (conjugate over squared norm).
    pub fn inverse(&self) -> (r: Quat)
        ensures
            r@ == q_inverse(self@),
    {
        let l = fx_add(
            fx_add(fx_add(fx_mul(self.x, self.x), fx_mul(self.y, self.y)), fx_mul(self.z, self.z)),
            fx_mul(self.w, self.w),
        );
        Quat {
            x: fx_div(fx_neg(self.x), l),
            y: fx_div(fx_neg(self.y), l),
            z: fx_div(fx_neg(self.z), l),
            w: fx_div(self.w, l),
        }
    }

    /// The identity rotation.
    pub fn identity() -> (r: Quat)
        ensures
            r@ == q_identity(),
    {
        Quat { x: 0, y: 0, z: 0, w: SCALE }
    }

    /// The conjugate rotation.
    pub fn conjugate(&self) -> (r: Quat)
        ensures
            r@ == q_conjugate(self@),
    {
        Quat { x: fx_neg(self.x), y: fx_neg(self.y), z: fx_neg(self.z), w: self.w }
    }

    /// Quaternion product.
    pub fn mul(&self, other: Quat) -> (r: Quat)
        ensures
            r@ == q_mul(self@, other@),
    {
        Quat {
            x: fx_sub(
                fx_add(fx_add(fx_mul(self.w, other.x), fx_mul(self.x, other.w)), fx_mul(self.y, other.z)),
                fx_mul(self.z, other.y),
            ),
            y: fx_sub(
                fx_add(fx_add(fx_mul(self.w, other.y), fx_mul(self.y, other.w)), fx_mul(self.z, other.x)),
                fx_mul(self.x, other.z),
            ),
            z: fx_sub(
                fx_add(fx_add(fx_mul(self.w, other.z), fx_mul(self.z, other.w)), fx_mul(self.x, other.y)),
                fx_mul(self.y, other.x),
            ),
            w: fx_sub(
                fx_sub(fx_sub(fx_mul(self.w, other.w), fx_mul(self.x, other.x)), fx_mul(self.y, other.y)),
                fx_mul(self.z, other.z),
            ),
        }
    }

    /// Rotation about the y axis.
    pub fn rot_y(angle: i64) -> (r: Quat)
        ensures
            r@ == q_from_axis_angle(V3 { x: 0, y: SCALE as int, z: 0 }, angle as int),
    {
        Quat::from_axis_angle(Vec3 { x: 0, y: SCALE, z: 0 }, angle)
    }

    /// Rotation about the z axis.
    pub fn rot_z(angle: i64) -> (r: Quat)
        ensures
            r@ == q_from_axis_angle(V3 { x: 0, y: 0, z: SCALE as int }, angle as int),
    {
        Quat::from_axis_angle(Vec3 { x: 0, y: 0, z: SCALE }, angle)
    }

    /// Rotation about the x axis.
    pub fn rot_x(angle: i64) -> (r: Quat)
        ensures
            r@ == q_from_axis_angle(V3 { x: SCALE as int, y: 0, z: 0 }, angle as int),
    {
        Quat::from_axis_angle(Vec3 { x: SCALE, y: 0, z: 0 }, angle)
    }
}

} // verus!
