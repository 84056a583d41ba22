//! Shape primitives and scene objects.
//!
//! A shape maps a local-space point to a signed distance: negative inside,
//! positive outside, near zero on the surface. An object is a shape with an
//! affine transform (translate, rotate, non-uniform scale), a constant
//! surface inflation, and two pure shader strategies: a point-to-colour rule
//! and a point-distortion rule applied before distance evaluation.

use vstd::prelude::*;
use crate::fx::{
    SCALE, f_abs, f_add, f_clamp, f_div, f_divi, f_max, f_min, f_mul, f_sub, fx_add, fx_clamp,
    fx_div, fx_divi, fx_min, fx_mul, fx_sub,
};
use crate::math::{
    Q4, Quat, V3, Vec3, q_conjugate, q_identity, q_rotate, v_abs, v_add, v_cross, v_div, v_length,
    v_max, v_max_element, v_mul, v_scale, v_sub, v_sub_scalar,
};
use crate::trig::{f_acos, f_atan2, f_cos, f_ln, f_pow, f_sin, fx_acos, fx_atan2, fx_cos, fx_ln, fx_pow, fx_sin};

verus! {

/// A closed set of shape primitives, each a pure function of a local point.
#[derive(Clone, Copy, Debug, PartialEq, Eq, Structural)]
pub enum Shape {
    /// The unit sphere.
    Sphere,
    /// The box of half-extent one.
    Cube,
    /// An escape-time fractal estimated over a bounded iteration count, with
    /// a fixed-point exponent.
    Mandelbulb { iterations: u32, power: i64 },
}

/// A pure point-to-colour rule. The library stores no function values, so
/// the user-supplied shader is one of a closed set of strategies.
#[derive(Clone, Copy, Debug, PartialEq, Eq, Structural)]
pub enum FragmentShader {
    /// The same colour everywhere.
    Constant(Vec3),
    /// Sinusoidal stripes along the x axis: the red channel follows
    /// `clamp(amplitude * sin(frequency * x), 0, 1)` over the `base` colour's
    /// remaining channels.
    StripesX { frequency: i64, amplitude: i64, base: Vec3 },
}

/// A pure point-distortion rule applied before distance evaluation.
#[derive(Clone, Copy, Debug, PartialEq, Eq, Structural)]
pub enum VertexShader {
    /// Points pass through unchanged.
    Identity,
    /// Points are shifted by a constant offset.
    Translate(Vec3),
}

/// The colour a fragment shader yields at a point.
pub open spec fn frag_eval(s: FragmentShader, p: V3) -> V3 {
    match s {
        FragmentShader::Constant(c) => c@,
        FragmentShader::StripesX { frequency, amplitude, base } => V3 {
            x: f_clamp(
                f_mul(amplitude as int, f_sin(f_mul(frequency as int, p.x))),
                0,
                SCALE as int,
            ),
            y: base@.y,
            z: base@.z,
        },
    }
}

/// The point a vertex shader yields.
pub open spec fn vert_eval(s: VertexShader, p: V3) -> V3 {
    match s {
        VertexShader::Identity => p,
        VertexShader::Translate(d) => v_add(p, d@),
    }
}

impl FragmentShader {
    /// The colour this shader yields at a point.
    pub fn eval(&self, p: Vec3) -> (r: Vec3)
        ensures
            r@ == frag_eval(*self, p@),
    {
        match self {
            FragmentShader::Constant(c) => *c,
            FragmentShader::StripesX { frequency, amplitude, base } => Vec3 {
                x: fx_clamp(fx_mul(*amplitude, fx_sin(fx_mul(*frequency, p.x))), 0, SCALE),
                y: base.y,
                z: base.z,
            },
        }
    }
}

impl VertexShader {
    /// The point this shader yields.
    pub fn eval(&self, p: Vec3) -> (r: Vec3)
        ensures
            r@ == vert_eval(*self, p@),
    {
        match self {
            VertexShader::Identity => p,
            VertexShader::Translate(d) => p.add(*d),
        }
    }
}

/// The running state of the escape-time iteration: the orbit point, the
/// derivative estimate, and the last observed orbit radius.
#[verifier::ext_equal]
pub struct BulbState {
    pub z: V3,
    pub dr: int,
    pub r: int,
}

/// One pass of the escape-time recurrence `z -> z^power + c`, in spherical
/// coordinates, with the object's scale folded in componentwise after every
/// step; stops early once the orbit radius passes two.
pub open spec fn bulb_loop(z: V3, dr: int, r: int, c: V3, scale: V3, power: int, n: nat) -> BulbState
    decreases n,
{
    if n == 0 {
        BulbState { z, dr, r }
    } else {
        let r2 = v_length(z);
        if r2 > 2 * (SCALE as int) {
            BulbState { z, dr, r: r2 }
        } else {
            let theta = f_mul(f_acos(f_div(z.z, r2)), power);
            let phi = f_mul(f_atan2(z.y, z.x), power);
            let dr2 = f_add(f_mul(f_mul(f_pow(r2, f_sub(power, SCALE as int)), power), dr), SCALE as int);
            let zr = f_pow(r2, power);
            let znew = v_mul(
                v_add(
                    V3 {
                        x: f_mul(f_mul(zr, f_sin(theta)), f_cos(phi)),
                        y: f_mul(f_mul(zr, f_sin(theta)), f_sin(phi)),
                        z: f_mul(zr, f_cos(theta)),
                    },
                    c,
                ),
                scale,
            );
            bulb_loop(znew, dr2, r2, c, scale, power, (n - 1) as nat)
        }
    }
}

/// The fractal's distance estimate `ln(r) * r / (2 * dr)` after the bounded
/// escape-time iteration from the local point.
pub open spec fn bulb_distance(p: V3, scale: V3, power: int, iterations: nat) -> int {
    let end = bulb_loop(p, SCALE as int, 0, p, scale, power, iterations);
    f_div(f_mul(f_divi(f_ln(end.r), 2), end.r), end.dr)
}

/// The signed distance from a local point to a shape's surface. The scale is
/// read only by the fractal, whose recurrence deforms the orbit by it on
/// every pass.
pub open spec fn shape_distance(s: Shape, p: V3, scale: V3) -> int {
    match s {
        Shape::Sphere => f_sub(v_length(p), SCALE as int),
        Shape::Cube => {
            let d = v_sub_scalar(v_abs(p), SCALE as int);
            f_add(v_length(v_max(d, V3 { x: 0, y: 0, z: 0 })), f_min(v_max_element(d), 0))
        },
        Shape::Mandelbulb { iterations, power } => bulb_distance(
            p,
            scale,
            power as int,
            iterations as nat,
        ),
    }
}

/// A shape placed in the world: transform, inflation, shaders.
#[derive(Clone, Copy, Debug, PartialEq, Eq, Structural)]
pub struct Object {
    pub shape: Shape,
    pub position: Vec3,
    pub rotation: Quat,
    pub scale: Vec3,
    pub inflate: i64,
    pub fragment_shader: FragmentShader,
    pub vertex_shader: VertexShader,
}

/// A world point carried into an object's local space: translate by the
/// inverse position, rotate by the conjugate, then divide out the scale, in
/// that order.
pub open spec fn object_local(o: Object, p: V3) -> V3 {
    v_div(q_rotate(q_conjugate(o.rotation@), v_sub(p, o.position@)), o.scale@)
}

/// The signed distance from a world point to an object's inflated surface.
pub open spec fn object_distance(o: Object, p: V3) -> int {
    f_sub(shape_distance(o.shape, object_local(o, p), o.scale@), o.inflate as int)
}

/// The escape-time iteration, step by step.
fn bulb_loop_run(z: Vec3, dr: i64, r: i64, c: Vec3, scale: Vec3, power: i64, n: u32) -> (res: (
    Vec3,
    i64,
    i64,
))
    ensures
        bulb_loop(z@, dr as int, r as int, c@, scale@, power as int, n as nat) == (BulbState {
            z: res.0@,
            dr: res.1 as int,
            r: res.2 as int,
        }),
    decreases n,
{
    if n == 0 {
        (z, dr, r)
    } else {
        let r2 = z.length();
        if r2 > 2 * SCALE {
            (z, dr, r2)
        } else {
            let theta = fx_mul(fx_acos(fx_div(z.z, r2)), power);
            let phi = fx_mul(fx_atan2(z.y, z.x), power);
            let dr2 = fx_add(fx_mul(fx_mul(fx_pow(r2, fx_sub(power, SCALE)), power), dr), SCALE);
            let zr = fx_pow(r2, power);
            let znew = Vec3 {
                x: fx_mul(fx_mul(zr, fx_sin(theta)), fx_cos(phi)),
                y: fx_mul(fx_mul(zr, fx_sin(theta)), fx_sin(phi)),
                z: fx_mul(zr, fx_cos(theta)),
            }.add(c).mul(scale);
            bulb_loop_run(znew, dr2, r2, c, scale, power, n - 1)
        }
    }
}

impl Object {
    /// An object with the given transform, zero inflation, a constant
    /// magenta fragment shader and the identity vertex shader.
    pub fn new(position: Vec3, rotation: Quat, scale: Vec3, shape: Shape) -> (r: Object)
        ensures
            r == (Object {
                shape,
                position,
                rotation,
                scale,
                inflate: 0i64,
                fragment_shader: FragmentShader::Constant(Vec3 { x: SCALE, y: 0, z: SCALE }),
                vertex_shader: VertexShader::Identity,
            }),
    {
        Object {
            shape,
            position,
            rotation,
            scale,
            inflate: 0,
            fragment_shader: FragmentShader::Constant(Vec3 { x: SCALE, y: 0, z: SCALE }),
            vertex_shader: VertexShader::Identity,
        }
    }

    /// The signed distance from a world point to this object's surface.
    pub fn distance(&self, point: Vec3) -> (r: i64)
        ensures
            r as int == object_distance(*self, point@),
    {
        let local = self.rotation.conjugate().rotate(point.sub(self.position)).div(self.scale);
        let dist = match self.shape {
            Shape::Sphere => fx_sub(local.length(), SCALE),
            Shape::Cube => {
                let d = local.abs().sub_scalar(SCALE);
                fx_add(d.max(Vec3::new(0, 0, 0)).length(), fx_min(d.max_element(), 0))
            },
            Shape::Mandelbulb { iterations, power } => {
                let end = bulb_loop_run(local, SCALE, 0, local, self.scale, power, iterations);
                fx_div(fx_mul(fx_divi(fx_ln(end.2), 2), end.2), end.1)
            },
        };
        fx_sub(dist, self.inflate)
    }

    /// Replaces the point-to-colour shader.
    pub fn set_fragment_shader(&mut self, fragment_shader: FragmentShader)
        ensures
            *final(self) == (Object { fragment_shader, ..*old(self) }),
    {
        self.fragment_shader = fragment_shader;
    }

    /// Replaces the point-distortion shader.
    pub fn set_vertex_shader(&mut self, vertex_shader: VertexShader)
        ensures
            *final(self) == (Object { vertex_shader, ..*old(self) }),
    {
        self.vertex_shader = vertex_shader;
    }

    /// Sets the surface inflation offset.
    pub fn set_inflate(&mut self, inflate: i64)
        ensures
            *final(self) == (Object { inflate, ..*old(self) }),
    {
        self.inflate = inflate;
    }
}

/// Under the identity transform (origin position, identity rotation, unit
/// scale) an object's local point is the world point itself.
pub proof fn lemma_identity_transform(o: Object, p: V3)
    requires
        o.position@ == (V3 { x: 0, y: 0, z: 0 }),
        o.rotation@ == q_identity(),
        o.scale@ == (V3 { x: SCALE as int, y: SCALE as int, z: SCALE as int }),
        i64::MIN <= p.x <= i64::MAX,
        i64::MIN <= p.y <= i64::MAX,
        i64::MIN <= p.z <= i64::MAX,
    ensures
        object_local(o, p) == p,
{
    let s = v_sub(p, o.position@);
    assert(s == p);
    let cq = q_conjugate(o.rotation@);
    assert(cq == (Q4 { x: 0, y: 0, z: 0, w: SCALE as int }));
    let qv = V3 { x: 0, y: 0, z: 0 };
    let uv = v_cross(qv, s);
    assert(uv == (V3 { x: 0, y: 0, z: 0 }));
    let uuv = v_cross(qv, uv);
    assert(uuv == (V3 { x: 0, y: 0, z: 0 }));
    assert(v_scale(v_scale(uv, SCALE as int), 2 * (SCALE as int)) == (V3 { x: 0, y: 0, z: 0 }));
    assert(v_scale(uuv, 2 * (SCALE as int)) == (V3 { x: 0, y: 0, z: 0 }));
    assert(v_add(V3 { x: 0, y: 0, z: 0 }, V3 { x: 0, y: 0, z: 0 }) == (V3 { x: 0, y: 0, z: 0 }));
    assert(v_add(V3 { x: 0, y: 0, z: 0 }, s) == s);
    let rot = q_rotate(cq, s);
    assert(rot == p);
    assert(f_div(p.x, SCALE as int) == p.x) by {
        vstd::arithmetic::div_mod::lemma_div_multiples_vanish(p.x, SCALE as int);
    }
    assert(f_div(p.y, SCALE as int) == p.y) by {
        vstd::arithmetic::div_mod::lemma_div_multiples_vanish(p.y, SCALE as int);
    }
    assert(f_div(p.z, SCALE as int) == p.z) by {
        vstd::arithmetic::div_mod::lemma_div_multiples_vanish(p.z, SCALE as int);
    }
    assert(object_local(o, p) == p);
}

/// The unit sphere's distance is exactly the length of the point minus one,
/// for every point, when the owning object leaves it untransformed and
/// uninflated.
pub proof fn lemma_sphere_distance_exact(o: Object, p: V3)
    requires
        o.shape == Shape::Sphere,
        o.inflate == 0i64,
        o.position@ == (V3 { x: 0, y: 0, z: 0 }),
        o.rotation@ == q_identity(),
        o.scale@ == (V3 { x: SCALE as int, y: SCALE as int, z: SCALE as int }),
        i64::MIN <= p.x <= i64::MAX,
        i64::MIN <= p.y <= i64::MAX,
        i64::MIN <= p.z <= i64::MAX,
    ensures
        object_distance(o, p) == f_sub(v_length(p), SCALE as int),
{
    lemma_identity_transform(o, p);
}

/// Strictly inside the unit cube the distance is negative and equals the
/// negated smallest margin to a face, `-(min(1-|x|, 1-|y|, 1-|z|))`, when
/// the owning object leaves the point untransformed and uninflated.
#[verifier::rlimit(60)]
pub proof fn lemma_cube_inside_exact(o: Object, p: V3)
    requires
        o.shape == Shape::Cube,
        o.inflate == 0i64,
        o.position@ == (V3 { x: 0, y: 0, z: 0 }),
        o.rotation@ == q_identity(),
        o.scale@ == (V3 { x: SCALE as int, y: SCALE as int, z: SCALE as int }),
        f_abs(p.x) < SCALE as int,
        f_abs(p.y) < SCALE as int,
        f_abs(p.z) < SCALE as int,
    ensures
        object_distance(o, p) == -f_min(
            f_min((SCALE as int) - f_abs(p.x), (SCALE as int) - f_abs(p.y)),
            (SCALE as int) - f_abs(p.z),
        ),
        object_distance(o, p) < 0,
{
    lemma_identity_transform(o, p);
    let d = v_sub_scalar(v_abs(p), SCALE as int);
    assert(d.x == f_abs(p.x) - SCALE as int && d.y == f_abs(p.y) - SCALE as int && d.z == f_abs(
        p.z,
    ) - SCALE as int);
    assert(v_max(d, V3 { x: 0, y: 0, z: 0 }) == (V3 { x: 0, y: 0, z: 0 }));
    assert(crate::fx::sqrt_rec(0nat) == 0) by {
        reveal_with_fuel(crate::fx::sqrt_rec, 1);
    }
    assert(v_length(V3 { x: 0, y: 0, z: 0 }) == 0);
    let me = f_min(v_max_element(d), 0);
    assert(me == f_max(f_max(d.x, d.y), d.z));
    assert(-(SCALE as int) <= me < 0);
    assert(shape_distance(o.shape, p, o.scale@) == f_add(0, me));
    assert(f_add(0, me) == me);
    assert(object_distance(o, p) == me);
    assert(me == -f_min(
        f_min((SCALE as int) - f_abs(p.x), (SCALE as int) - f_abs(p.y)),
        (SCALE as int) - f_abs(p.z),
    ));
}

} // verus!
