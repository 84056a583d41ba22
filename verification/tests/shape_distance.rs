//! Object and shape distance fields.

use raymarch::fx::{SCALE, fx_div, fx_divi, fx_mul};
use raymarch::trig::fx_ln;
use raymarch::math::{Quat, Vec3};
use raymarch::shape::{FragmentShader, Object, Shape, VertexShader};

fn unit(shape: Shape) -> Object {
    Object::new(
        Vec3::new(0, 0, 0),
        Quat::identity(),
        Vec3::new(SCALE, SCALE, SCALE),
        shape,
    )
}

#[test]
fn sphere_distance_is_length_minus_one() {
    let o = unit(Shape::Sphere);
    assert_eq!(o.distance(Vec3::new(0, 0, 5 * SCALE)), 4 * SCALE);
    assert_eq!(o.distance(Vec3::new(3 * SCALE, 0, 4 * SCALE)), 4 * SCALE);
    assert_eq!(o.distance(Vec3::new(0, 0, 0)), -SCALE);
    assert_eq!(o.distance(Vec3::new(0, SCALE, 0)), 0);
}

#[test]
fn sphere_translates_with_its_position() {
    let o = Object::new(
        Vec3::new(0, 0, -5 * SCALE),
        Quat::identity(),
        Vec3::new(SCALE, SCALE, SCALE),
        Shape::Sphere,
    );
    assert_eq!(o.distance(Vec3::new(0, 0, 0)), 4 * SCALE);
}

#[test]
fn cube_inside_matches_negated_smallest_margin() {
    let o = unit(Shape::Cube);
    assert_eq!(o.distance(Vec3::new(500_000, -250_000, 0)), -500_000);
    assert_eq!(o.distance(Vec3::new(0, 0, 0)), -SCALE);
    assert_eq!(o.distance(Vec3::new(900_000, 900_000, 900_000)), -100_000);
    assert!(o.distance(Vec3::new(999_999, 0, 0)) < 0);
}

#[test]
fn cube_outside_on_face_and_corner() {
    let o = unit(Shape::Cube);
    assert_eq!(o.distance(Vec3::new(2 * SCALE, 0, 0)), SCALE);
    // corner at distance sqrt(3)
    assert_eq!(o.distance(Vec3::new(2 * SCALE, 2 * SCALE, 2 * SCALE)), 1_732_050);
}

#[test]
fn inflate_lowers_every_distance() {
    let mut o = unit(Shape::Sphere);
    o.set_inflate(100_000);
    assert_eq!(o.distance(Vec3::new(0, 0, 5 * SCALE)), 4 * SCALE - 100_000);
}

#[test]
fn non_uniform_scale_stretches_the_cube() {
    let o = Object::new(
        Vec3::new(0, 0, 0),
        Quat::identity(),
        Vec3::new(SCALE, 2 * SCALE, SCALE),
        Shape::Cube,
    );
    assert_eq!(o.distance(Vec3::new(0, 3 * SCALE, 0)), 500_000);
}

#[test]
fn rotated_sphere_is_still_a_sphere() {
    let o = Object::new(
        Vec3::new(0, 0, 0),
        Quat::rot_y(500_000),
        Vec3::new(SCALE, SCALE, SCALE),
        Shape::Sphere,
    );
    let d = o.distance(Vec3::new(0, 0, 5 * SCALE));
    assert!((d - 4 * SCALE).abs() <= 5_000, "distance {d}");
}

#[test]
fn vertex_shader_translates_the_query_point() {
    let mut o = unit(Shape::Sphere);
    o.set_vertex_shader(VertexShader::Translate(Vec3::new(0, 0, -2 * SCALE)));
    // the shader shifts (0, 0, 5) to (0, 0, 3) before the sphere sees it;
    // the object's own distance query takes the already-shaded point
    let shaded = o.vertex_shader.eval(Vec3::new(0, 0, 5 * SCALE));
    assert_eq!(shaded, Vec3::new(0, 0, 3 * SCALE));
    assert_eq!(o.distance(shaded), 2 * SCALE);
}

#[test]
fn fragment_shaders_colour_points() {
    let red = FragmentShader::Constant(Vec3::new(SCALE, 0, 0));
    assert_eq!(red.eval(Vec3::new(7, 8, 9)), Vec3::new(SCALE, 0, 0));
    let stripes = FragmentShader::StripesX {
        frequency: 5 * SCALE,
        amplitude: 400_000,
        base: Vec3::new(0, 0, SCALE),
    };
    let at_zero = stripes.eval(Vec3::new(0, 0, 0));
    assert_eq!(at_zero, Vec3::new(0, 0, SCALE));
    let off_zero = stripes.eval(Vec3::new(300_000, 0, 0));
    assert!(off_zero.x > 0 && off_zero.x <= SCALE);
    assert_eq!((off_zero.y, off_zero.z), (0, SCALE));
}

#[test]
fn mandelbulb_far_point_escapes_on_first_pass() {
    let o = unit(Shape::Mandelbulb { iterations: 20, power: 8 * SCALE });
    // the first orbit radius is ten, beyond the escape bound of two, so the
    // estimate is ln(10) * 10 / (2 * 1) through the library's own operators
    let r = 10 * SCALE;
    let expected = fx_div(fx_mul(fx_divi(fx_ln(r), 2), r), SCALE);
    let d = o.distance(Vec3::new(0, 0, 10 * SCALE));
    assert_eq!(d, expected);
    assert!(d > 0);
}

#[test]
fn mandelbulb_zero_iterations_yields_zero() {
    let o = unit(Shape::Mandelbulb { iterations: 0, power: 8 * SCALE });
    // no pass ever runs: r stays zero and ln(0) is defined as zero
    assert_eq!(o.distance(Vec3::new(0, 0, 10 * SCALE)), 0);
}
