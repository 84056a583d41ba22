//! Rays, and the pinhole camera that makes them.
//!
//! The camera keeps an orthonormal viewing basis (within fixed-point
//! rounding): after construction and after every rotation, `right` is
//! re-derived as the normalized cross product of the viewing direction with
//! `up`, and `up` as the normalized cross product of `right` with the
//! direction, in that order.

use vstd::prelude::*;
use crate::fx::{
    SCALE, f_abs, f_add, f_div, f_divi, f_mul, f_sub, fx_add, fx_div, fx_divi, fx_from_u32,
    fx_mul, fx_sub,
};
use crate::math::{
    Quat, V3, Vec3, lemma_cross_components_bounded, lemma_normalize_components_bounded,
    lemma_normalized_cross_nearly_orthogonal, q_from_axis_angle, q_mul, q_rotate, v_add, v_cross,
    v_dot, v_length, v_normalize, v_scale,
};
use crate::trig::{f_tan, fx_tan};

verus! {

/// Mathematical view of a ray.
#[verifier::ext_equal]
pub struct RayV {
    pub origin: V3,
    pub direction: V3,
}

/// Mathematical view of a camera.
#[verifier::ext_equal]
pub struct CamV {
    pub position: V3,
    pub direction: V3,
    pub up: V3,
    pub right: V3,
    pub fov: int,
    pub aspect_ratio: int,
}

/// A half line: origin plus direction. The marcher's step accumulation reads
/// true arc length only when the direction is (approximately) unit; the
/// camera normalizes every direction it hands out.
#[derive(Clone, Copy, Debug, PartialEq, Eq, Structural)]
pub struct Ray {
    pub origin: Vec3,
    pub direction: Vec3,
}

/// The point `origin + direction * t`.
pub open spec fn ray_point(r: RayV, t: int) -> V3 {
    v_add(r.origin, v_scale(r.direction, t))
}

impl View for Ray {
    type V = RayV;

    open spec fn view(&self) -> RayV {
        RayV { origin: self.origin@, direction: self.direction@ }
    }
}

impl Ray {
    /// The ray with the given origin and direction.
    pub fn new(origin: Vec3, direction: Vec3) -> (r: Ray)
        ensures
            r@ == (RayV { origin: origin@, direction: direction@ }),
    {
        Ray { origin, direction }
    }

    /// The point reached after marching `t` along the direction.
    pub fn point(&self, t: i64) -> (r: Vec3)
        ensures
            r@ == ray_point(self@, t as int),
    {
        self.origin.add(self.direction.scale(t))
    }
}

/// A pinhole camera: a position, an orthonormal viewing basis, a vertical
/// field of view in fixed-point radians, and a width-over-height aspect
/// ratio.
#[derive(Clone, Copy, Debug, PartialEq, Eq, Structural)]
pub struct Camera {
    pub position: Vec3,
    pub direction: Vec3,
    pub up: Vec3,
    pub right: Vec3,
    pub fov: i64,
    pub aspect_ratio: i64,
}

impl View for Camera {
    type V = CamV;

    open spec fn view(&self) -> CamV {
        CamV {
            position: self.position@,
            direction: self.direction@,
            up: self.up@,
            right: self.right@,
            fov: self.fov as int,
            aspect_ratio: self.aspect_ratio as int,
        }
    }
}

/// The `right` basis vector derived from a direction and an up hint.
pub open spec fn cam_right(direction: V3, up: V3) -> V3 {
    v_normalize(v_cross(direction, up))
}

/// The `up` basis vector re-derived from `right` and the direction.
pub open spec fn cam_up(right: V3, direction: V3) -> V3 {
    v_normalize(v_cross(right, direction))
}

/// The primary ray for normalized image coordinates `u` (left to right) and
/// `v` (top to bottom), both in `[0, SCALE]`: the pinhole formula
/// `normalize(forward + right * (2u-1) * aspect * tan(fov/2) + up * (1-2v) * tan(fov/2))`.
pub open spec fn cam_ray(c: CamV, u: int, v: int) -> RayV {
    let tanf = f_tan(f_divi(c.fov, 2));
    let xs = f_mul(f_mul(f_sub(f_add(u, u), SCALE as int), c.aspect_ratio), tanf);
    let ys = f_mul(f_sub(SCALE as int, f_add(v, v)), tanf);
    RayV {
        origin: c.position,
        direction: v_normalize(
            v_add(v_add(c.direction, v_scale(c.right, xs)), v_scale(c.up, ys)),
        ),
    }
}

/// A camera turned by `yaw` about its up axis and `pitch` about its right
/// axis (one combined rotation), its basis then re-orthonormalized.
pub open spec fn cam_rotate(c: CamV, yaw: int, pitch: int) -> CamV {
    let qy = q_from_axis_angle(c.up, yaw);
    let qp = q_from_axis_angle(c.right, pitch);
    let d = q_rotate(q_mul(qy, qp), c.direction);
    let r = cam_right(d, c.up);
    let u = cam_up(r, d);
    CamV { direction: d, right: r, up: u, ..c }
}

/// After a rotation the re-derived basis is orthogonal within rounding: as
/// long as the rotated direction keeps unit-bounded components and neither
/// cross product degenerates (each at least half a unit long, so the
/// direction is not close to parallel with the old up), the fixed-point dots
/// of right with direction, up with right, and up with direction all lie
/// within 32 raw units of zero — a few hundred-thousandths of a unit, for
/// any yaw and pitch and however many rotations came before.
pub proof fn lemma_rotate_basis_nearly_orthogonal(c: CamV, yaw: int, pitch: int)
    requires
        -(SCALE as int) <= c.up.x <= SCALE as int,
        -(SCALE as int) <= c.up.y <= SCALE as int,
        -(SCALE as int) <= c.up.z <= SCALE as int,
        -(SCALE as int) <= cam_rotate(c, yaw, pitch).direction.x <= SCALE as int,
        -(SCALE as int) <= cam_rotate(c, yaw, pitch).direction.y <= SCALE as int,
        -(SCALE as int) <= cam_rotate(c, yaw, pitch).direction.z <= SCALE as int,
        v_length(v_cross(cam_rotate(c, yaw, pitch).direction, c.up)) >= (SCALE as int) / 2,
        v_length(
            v_cross(cam_rotate(c, yaw, pitch).right, cam_rotate(c, yaw, pitch).direction),
        ) >= (SCALE as int) / 2,
    ensures
        f_abs(v_dot(cam_rotate(c, yaw, pitch).right, cam_rotate(c, yaw, pitch).direction)) <= 32,
        f_abs(v_dot(cam_rotate(c, yaw, pitch).up, cam_rotate(c, yaw, pitch).right)) <= 32,
        f_abs(v_dot(cam_rotate(c, yaw, pitch).up, cam_rotate(c, yaw, pitch).direction)) <= 32,
{
    let after = cam_rotate(c, yaw, pitch);
    let d = after.direction;
    // right is the normalized cross of the new direction with the old up,
    // so it is orthogonal to the direction within rounding
    lemma_normalized_cross_nearly_orthogonal(d, c.up);
    assert(after.right == v_normalize(v_cross(d, c.up)));
    // its components are unit-bounded, being a normalization's output
    lemma_cross_components_bounded(d, c.up);
    lemma_normalize_components_bounded(v_cross(d, c.up));
    // up is the normalized cross of right with the direction, so it is
    // orthogonal to both within rounding
    lemma_normalized_cross_nearly_orthogonal(after.right, d);
    assert(after.up == v_normalize(v_cross(after.right, d)));
}

impl Camera {
    /// A camera at `position` looking along `direction`, its basis derived
    /// from the `up` hint.
    pub fn new(position: Vec3, direction: Vec3, up: Vec3, fov: i64, aspect_ratio: i64) -> (r:
        Camera)
        ensures
            r@.position == position@,
            r@.direction == direction@,
            r@.right == cam_right(direction@, up@),
            r@.up == cam_up(cam_right(direction@, up@), direction@),
            r@.fov == fov as int,
            r@.aspect_ratio == aspect_ratio as int,
    {
        let right = direction.cross(up).normalize();
        let up2 = right.cross(direction).normalize();
        Camera { position, direction, up: up2, right, fov, aspect_ratio }
    }

    /// Sets the aspect ratio to `width / height`.
    pub fn set_aspect_ratio(&mut self, width: u32, height: u32)
        requires
            width >= 1,
            height >= 1,
        ensures
            final(self)@ == (CamV {
                aspect_ratio: f_div(
                    (width as int) * (SCALE as int),
                    (height as int) * (SCALE as int),
                ),
                ..old(self)@
            }),
    {
        self.aspect_ratio = fx_div(fx_from_u32(width), fx_from_u32(height));
    }

    /// The primary ray for normalized image coordinates `u` and `v`.
    pub fn ray(&self, u: i64, v: i64) -> (r: Ray)
        ensures
            r@ == cam_ray(self@, u as int, v as int),
    {
        let tanf = fx_tan(fx_divi(self.fov, 2));
        let xs = fx_mul(fx_mul(fx_sub(fx_add(u, u), SCALE), self.aspect_ratio), tanf);
        let ys = fx_mul(fx_sub(SCALE, fx_add(v, v)), tanf);
        Ray {
            origin: self.position,
            direction: self.direction.add(self.right.scale(xs)).add(self.up.scale(ys)).normalize(),
        }
    }

    /// Turns the camera by `yaw` about its up axis and `pitch` about its
    /// right axis, then restores the orthonormal basis (right first, then
    /// up).
    pub fn rotate(&mut self, yaw: i64, pitch: i64)
        ensures
            final(self)@ == cam_rotate(old(self)@, yaw as int, pitch as int),
    {
        let qy = Quat::from_axis_angle(self.up, yaw);
        let qp = Quat::from_axis_angle(self.right, pitch);
        self.direction = qy.mul(qp).rotate(self.direction);
        self.right = self.direction.cross(self.up).normalize();
        self.up = self.right.cross(self.direction).normalize();
    }

    /// Moves the position along the viewing direction.
    pub fn move_forward(&mut self, amount: i64)
        ensures
            final(self)@ == (CamV {
                position: v_add(old(self)@.position, v_scale(old(self)@.direction, amount as int)),
                ..old(self)@
            }),
    {
        self.position = self.position.add(self.direction.scale(amount));
    }

    /// Moves the position along the right axis.
    pub fn move_right(&mut self, amount: i64)
        ensures
            final(self)@ == (CamV {
                position: v_add(old(self)@.position, v_scale(old(self)@.right, amount as int)),
                ..old(self)@
            }),
    {
        self.position = self.position.add(self.right.scale(amount));
    }
}

} // verus!
