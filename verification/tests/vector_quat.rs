//! Vector and quaternion algebra.

use raymarch::fx::SCALE;
use raymarch::math::{Quat, Vec3};

#[test]
fn componentwise_operations() {
    let a = Vec3::new(SCALE, 2 * SCALE, -3 * SCALE);
    let b = Vec3::new(500_000, -SCALE, SCALE);
    assert_eq!(a.add(b), Vec3::new(1_500_000, SCALE, -2 * SCALE));
    assert_eq!(a.sub(b), Vec3::new(500_000, 3 * SCALE, -4 * SCALE));
    assert_eq!(a.neg(), Vec3::new(-SCALE, -2 * SCALE, 3 * SCALE));
    assert_eq!(a.abs(), Vec3::new(SCALE, 2 * SCALE, 3 * SCALE));
    assert_eq!(a.scale(500_000), Vec3::new(500_000, SCALE, -1_500_000));
    assert_eq!(a.mul(b), Vec3::new(500_000, -2 * SCALE, -3 * SCALE));
    assert_eq!(a.div(Vec3::new(2 * SCALE, SCALE, 4 * SCALE)), Vec3::new(500_000, 2 * SCALE, -750_000));
    assert_eq!(a.min(b), Vec3::new(500_000, -SCALE, -3 * SCALE));
    assert_eq!(a.max(b), Vec3::new(SCALE, 2 * SCALE, SCALE));
    assert_eq!(a.max_element(), 2 * SCALE);
    assert_eq!(a.sub_scalar(SCALE), Vec3::new(0, SCALE, -4 * SCALE));
}

#[test]
fn dot_cross_length_distance() {
    let x = Vec3::new(SCALE, 0, 0);
    let y = Vec3::new(0, SCALE, 0);
    assert_eq!(x.dot(y), 0);
    assert_eq!(x.dot(x), SCALE);
    assert_eq!(x.cross(y), Vec3::new(0, 0, SCALE));
    assert_eq!(y.cross(x), Vec3::new(0, 0, -SCALE));
    assert_eq!(Vec3::new(3 * SCALE, 4 * SCALE, 0).length(), 5 * SCALE);
    assert_eq!(
        Vec3::new(SCALE, SCALE, 0).distance(Vec3::new(SCALE, -SCALE, 0)),
        2 * SCALE,
    );
}

#[test]
fn normalize_scales_to_unit_length() {
    let v = Vec3::new(3 * SCALE, 4 * SCALE, 0);
    assert_eq!(v.normalize(), Vec3::new(600_000, 800_000, 0));
    assert_eq!(Vec3::new(0, 0, 0).normalize(), Vec3::new(0, 0, 0));
}

#[test]
fn lerp_walks_between_endpoints() {
    let a = Vec3::new(0, 0, 0);
    let b = Vec3::new(2 * SCALE, -4 * SCALE, SCALE);
    assert_eq!(a.lerp(b, 0), a);
    assert_eq!(a.lerp(b, SCALE), b);
    assert_eq!(a.lerp(b, 500_000), Vec3::new(SCALE, -2 * SCALE, 500_000));
}

#[test]
fn zero_angle_is_exactly_the_identity() {
    for axis in [
        Vec3::new(0, SCALE, 0),
        Vec3::new(SCALE, 0, 0),
        Vec3::new(577_350, 577_350, 577_350),
    ] {
        let q = Quat::from_axis_angle(axis, 0);
        assert_eq!(q, Quat::identity());
    }
    assert_eq!(Quat::rot_x(0), Quat::identity());
    assert_eq!(Quat::rot_y(0), Quat::identity());
    assert_eq!(Quat::rot_z(0), Quat::identity());
}

#[test]
fn identity_quaternion_rotates_nothing() {
    let q = Quat::identity();
    let v = Vec3::new(123_456, -654_321, 42);
    assert_eq!(q.rotate(v), v);
    assert_eq!(q.conjugate().rotate(v), v);
}

#[test]
fn quarter_turn_about_y_swaps_x_and_z() {
    // ninety degrees about the y axis carries +x to -z
    let q = Quat::rot_y(1_570_796);
    let r = q.rotate(Vec3::new(SCALE, 0, 0));
    assert!(r.x.abs() <= 3_000, "x = {}", r.x);
    assert!(r.y.abs() <= 3_000);
    assert!((r.z + SCALE).abs() <= 3_000, "z = {}", r.z);
}

#[test]
fn conjugate_undoes_a_rotation_approximately() {
    let q = Quat::rot_x(700_000);
    let v = Vec3::new(SCALE, 2 * SCALE, -SCALE);
    let back = q.conjugate().rotate(q.rotate(v));
    assert!((back.x - v.x).abs() <= 6_000);
    assert!((back.y - v.y).abs() <= 6_000);
    assert!((back.z - v.z).abs() <= 6_000);
}

#[test]
fn inverse_matches_conjugate_for_unit_quaternions() {
    let q = Quat::identity();
    let inv = q.inverse();
    assert_eq!((inv.x, inv.y, inv.z, inv.w), (0, 0, 0, SCALE));
}

#[test]
fn quaternion_product_composes_rotations() {
    let i = Quat::identity();
    let q = Quat::rot_z(400_000);
    let qq = i.mul(q);
    assert_eq!((qq.x, qq.y, qq.z, qq.w), (q.x, q.y, q.z, q.w));
}
