//! Camera construction, basis orthonormality, and primary rays.

use raymarch::camera::Camera;
use raymarch::fx::SCALE;
use raymarch::math::Vec3;

fn default_camera() -> Camera {
    Camera::new(
        Vec3::new(0, 0, 0),
        Vec3::new(0, 0, -SCALE),
        Vec3::new(0, SCALE, 0),
        785_398,
        SCALE,
    )
}

#[test]
fn construction_derives_an_exact_axis_basis() {
    let c = default_camera();
    assert_eq!(c.right, Vec3::new(SCALE, 0, 0));
    assert_eq!(c.up, Vec3::new(0, SCALE, 0));
    assert_eq!(c.direction, Vec3::new(0, 0, -SCALE));
}

#[test]
fn basis_stays_orthonormal_under_repeated_rotation() {
    let mut c = default_camera();
    for _ in 0..5 {
        c.rotate(100_000, 50_000);
    }
    // the proved bound on the basis dots is 32 raw units per rotation step
    let dot_tol = 50;
    assert!(c.right.dot(c.up).abs() <= dot_tol, "right . up = {}", c.right.dot(c.up));
    assert!(c.right.dot(c.direction).abs() <= dot_tol);
    assert!(c.up.dot(c.direction).abs() <= dot_tol);
    let len_tol = 100;
    assert!((c.right.length() - SCALE).abs() <= len_tol);
    assert!((c.up.length() - SCALE).abs() <= len_tol);
    assert!((c.direction.length() - SCALE).abs() <= len_tol);
}

#[test]
fn zero_rotation_changes_nothing() {
    let mut c = default_camera();
    c.rotate(0, 0);
    // both zero-angle quaternions are exactly the identity, so the whole
    // basis comes out exactly where it started
    assert_eq!(c.direction, Vec3::new(0, 0, -SCALE));
    assert_eq!(c.right, Vec3::new(SCALE, 0, 0));
    assert_eq!(c.up, Vec3::new(0, SCALE, 0));
}

#[test]
fn centre_ray_is_the_viewing_direction() {
    let c = default_camera();
    let ray = c.ray(500_000, 500_000);
    assert_eq!(ray.origin, Vec3::new(0, 0, 0));
    assert_eq!(ray.direction, Vec3::new(0, 0, -SCALE));
}

#[test]
fn corner_rays_mirror_in_the_image_plane() {
    let c = default_camera();
    let top_left = c.ray(0, 0);
    let bottom_right = c.ray(SCALE, SCALE);
    assert!((top_left.direction.x + bottom_right.direction.x).abs() <= 2);
    assert!((top_left.direction.y + bottom_right.direction.y).abs() <= 2);
    assert!(top_left.direction.x < 0 && top_left.direction.y > 0);
}

#[test]
fn set_aspect_ratio_divides_width_by_height() {
    let mut c = default_camera();
    c.set_aspect_ratio(16, 9);
    assert_eq!(c.aspect_ratio, 1_777_777);
    c.set_aspect_ratio(2, 1);
    assert_eq!(c.aspect_ratio, 2 * SCALE);
}

#[test]
fn moves_slide_along_the_basis() {
    let mut c = default_camera();
    c.move_forward(2 * SCALE);
    assert_eq!(c.position, Vec3::new(0, 0, -2 * SCALE));
    c.move_right(-SCALE);
    assert_eq!(c.position, Vec3::new(-SCALE, 0, -2 * SCALE));
}

#[test]
fn rays_come_out_near_unit_length() {
    let c = default_camera();
    for (u, v) in [(0, 0), (250_000, 750_000), (SCALE, 0), (500_000, 500_000)] {
        let ray = c.ray(u, v);
        assert!((ray.direction.length() - SCALE).abs() <= 2_000);
    }
}
