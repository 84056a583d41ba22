//! The sphere-tracing integrator and the full render.

use raymarch::camera::{Camera, Ray};
use raymarch::fx::SCALE;
use raymarch::math::{Quat, Vec3};
use raymarch::scene::{Outcome, Scene};
use raymarch::shape::{Object, Shape};

fn unit_sphere_scene() -> Scene {
    let mut s = Scene::empty();
    s.set_first_object(Object::new(
        Vec3::new(0, 0, 0),
        Quat::identity(),
        Vec3::new(SCALE, SCALE, SCALE),
        Shape::Sphere,
    ));
    s
}

#[test]
fn head_on_ray_hits_the_unit_sphere_at_four() {
    let s = unit_sphere_scene();
    let ray = Ray::new(Vec3::new(0, 0, 5 * SCALE), Vec3::new(0, 0, -SCALE));
    let m = s.march(ray);
    assert_eq!(m.outcome, Outcome::Hit);
    // the first step covers the whole four units, the second lands exactly
    assert_eq!(m.t, 4 * SCALE);
    assert_eq!(m.iterations, 2);
    assert_eq!(m.total_distance, 4 * SCALE);
    assert_eq!(m.min_distance, 0);
    // the hit takes the default magenta of the object
    assert_eq!(m.colour, Vec3::new(SCALE, 0, SCALE));
}

#[test]
fn sideways_ray_escapes_past_the_far_bound() {
    // a sphere five units down the negative z axis, a ray marching up the
    // y axis: distances only grow, and the march ends as an escape
    let s = Scene::empty();
    let ray = Ray::new(Vec3::new(0, 0, 0), Vec3::new(0, SCALE, 0));
    let m = s.march(ray);
    assert_eq!(m.outcome, Outcome::MissEscaped);
    assert!(m.t > 1_000 * SCALE);
    assert!(m.iterations < 500);
    // the closest approach was the very first step
    assert_eq!(m.min_distance, 4 * SCALE);
}

#[test]
fn constant_field_exhausts_the_step_budget() {
    // a zero-iteration fractal estimates zero everywhere; a negative
    // inflation lifts that to a constant 0.005, so every step advances the
    // same small amount and neither bound is ever reached
    let mut s = Scene::empty();
    let mut o = Object::new(
        Vec3::new(0, 0, 0),
        Quat::identity(),
        Vec3::new(SCALE, SCALE, SCALE),
        Shape::Mandelbulb { iterations: 0, power: 8 * SCALE },
    );
    o.set_inflate(-5_000);
    s.set_first_object(o);
    let m = s.march(Ray::new(Vec3::new(0, 0, 0), Vec3::new(0, 0, -SCALE)));
    assert_eq!(m.outcome, Outcome::MissExhausted);
    assert_eq!(m.iterations, 500);
    assert_eq!(m.total_distance, 500 * 5_000);
    assert_eq!(m.min_distance, 5_000);
}

#[test]
fn ray_point_walks_the_direction() {
    let ray = Ray::new(Vec3::new(SCALE, 0, 0), Vec3::new(0, 0, -SCALE));
    assert_eq!(ray.point(3 * SCALE), Vec3::new(SCALE, 0, -3 * SCALE));
    assert_eq!(ray.point(0), Vec3::new(SCALE, 0, 0));
}

#[test]
fn union_distance_field_is_a_safe_step_bound() {
    // sphere tracing is sound only while the field is a true lower bound on
    // the distance to the surface: stepping by d(p) from p must never land
    // past the surface, so d(q) >= d(p) - |p - q| up to rounding
    let mut s = unit_sphere_scene();
    s.add_object(Object::new(
        Vec3::new(3 * SCALE, 0, 0),
        Quat::identity(),
        Vec3::new(SCALE, SCALE, SCALE),
        Shape::Sphere,
    ));
    let points = [
        Vec3::new(0, 0, 5 * SCALE),
        Vec3::new(2 * SCALE, SCALE, -SCALE),
        Vec3::new(-4 * SCALE, 0, 0),
        Vec3::new(5 * SCALE, 0, 0),
        Vec3::new(1_500_000, -2_500_000, 750_000),
    ];
    for p in points {
        for q in points {
            let gap = p.distance(q);
            let dp = s.distance(p);
            let dq = s.distance(q);
            assert!((dp - dq).abs() <= gap + 5, "{dp} {dq} {gap}");
        }
    }
}

#[test]
fn render_channels_have_exact_dimensions() {
    let s = Scene::empty();
    for (w, h) in [(3u32, 2u32), (1, 1), (4, 5)] {
        let r = s.render(w, h);
        assert_eq!(r.colour.len(), h as usize);
        assert_eq!(r.steps.len(), h as usize);
        assert_eq!(r.depth.len(), h as usize);
        assert_eq!(r.min_distance.len(), h as usize);
        for row in &r.colour {
            assert_eq!(row.len(), w as usize);
        }
        for row in &r.steps {
            assert_eq!(row.len(), w as usize);
        }
        for row in &r.depth {
            assert_eq!(row.len(), w as usize);
        }
        for row in &r.min_distance {
            assert_eq!(row.len(), w as usize);
        }
    }
}

#[test]
fn render_misses_paint_background_black() {
    // camera looking up the y axis, scene five units down the z axis
    let camera = Camera::new(
        Vec3::new(0, 0, 0),
        Vec3::new(0, SCALE, 0),
        Vec3::new(0, 0, SCALE),
        785_398,
        SCALE,
    );
    let s = Scene::new(camera, Scene::empty().scene);
    let r = s.render(2, 2);
    for row in &r.colour {
        for px in row {
            assert_eq!(*px, Vec3::new(0, 0, 0));
        }
    }
    for row in &r.steps {
        for occ in row {
            assert!(0 <= *occ && *occ <= SCALE);
        }
    }
}

#[test]
fn render_hit_keeps_the_surface_colour() {
    // a single-pixel render whose one ray runs from the image corner; aim
    // the camera straight at a large sphere so even the corner ray hits
    let camera = Camera::new(
        Vec3::new(0, 0, 5 * SCALE),
        Vec3::new(0, 0, -SCALE),
        Vec3::new(0, SCALE, 0),
        785_398,
        SCALE,
    );
    let mut s = Scene::new(camera, Scene::empty().scene);
    s.set_first_object(Object::new(
        Vec3::new(0, 0, 0),
        Quat::identity(),
        Vec3::new(3 * SCALE, 3 * SCALE, 3 * SCALE),
        Shape::Sphere,
    ));
    let r = s.render(1, 1);
    // the default shader paints every surface point magenta
    assert_eq!(r.colour[0][0], Vec3::new(SCALE, 0, SCALE));
    assert!(r.steps[0][0] >= 0);
    assert!(r.depth[0][0] > 0);
    assert!(r.min_distance[0][0] <= SCALE / 100);

    // the channels agree with a hand-made march along the same corner ray
    let m = s.march(s.camera.ray(0, 0));
    assert_eq!(m.outcome, Outcome::Hit);
    assert_eq!(r.colour[0][0], m.colour);
    assert_eq!(r.depth[0][0], m.total_distance);
    assert_eq!(r.min_distance[0][0], m.min_distance);
    assert_eq!(r.steps[0][0], SCALE - (m.iterations as i64 * 2_000).min(SCALE));
}
