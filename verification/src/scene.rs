//! The scene: a camera and an immutable binary tree of objects combined by
//! constructive solid geometry operators.
//!
//! Evaluating the tree at a world point yields a combined signed distance and
//! a colour; the distance alone always equals the distance half of the
//! combined query.

use vstd::prelude::*;
use vstd::arithmetic::div_mod::{
    lemma_div_is_ordered, lemma_div_multiples_vanish, lemma_div_pos_is_pos,
};
use crate::camera::{CamV, Camera, Ray, RayV, cam_ray, ray_point};
use crate::fx::{
    SCALE, f_abs, f_add, f_div, f_divi, f_max, f_min, f_mul, f_sub, fx_abs, fx_add, fx_div,
    fx_divi, fx_from_int, fx_from_u32, fx_max, fx_min, fx_mul, fx_sub,
};
use crate::math::{Quat, V3, Vec3, v_add, v_scale};
use crate::shape::{
    FragmentShader, Object, Shape, VertexShader, frag_eval, object_distance, vert_eval,
};

verus! {

/// A CSG operator combining two child evaluations.
#[derive(Clone, Copy, Debug, PartialEq, Eq, Structural)]
pub enum Operation {
    /// Hard union: the smaller distance wins, with that child's colour.
    Union,
    /// Polynomial smooth union with a fixed-point blend radius; a
    /// nonpositive radius degenerates to the hard union.
    SmoothUnion(i64),
    /// Intersection: the larger distance wins, with that child's colour.
    Intersection,
}

/// A node of the scene tree: a single object, or two subtrees under an
/// operator. The tree is finite and acyclic by construction.
#[derive(Debug)]
pub enum TreeNode {
    Leaf(Object),
    Node(ObjectTree),
}

/// An interior node: an operator over two owned subtrees.
#[derive(Debug)]
pub struct ObjectTree {
    pub operation: Operation,
    pub left: Box<TreeNode>,
    pub right: Box<TreeNode>,
}

/// A scene: the camera and the root of the object tree.
#[derive(Debug)]
pub struct Scene {
    pub camera: Camera,
    pub scene: TreeNode,
}

/// A combined evaluation: a signed distance and the colour that goes with it.
#[verifier::ext_equal]
pub struct DistColour {
    pub d: int,
    pub colour: V3,
}

/// Polynomial smooth minimum: `min(a, b) - h^2 * k / 5` with
/// `h = max(k - |a - b|, 0) / k`, so the result sits at most `k / 5` below
/// the hard minimum. A nonpositive radius means the hard minimum.
pub open spec fn smooth_min(a: int, b: int, k: int) -> int {
    if k <= 0 {
        f_min(a, b)
    } else {
        let h = f_div(f_max(f_sub(k, f_abs(f_sub(a, b))), 0), k);
        f_sub(f_min(a, b), f_divi(f_mul(f_mul(h, h), k), 5))
    }
}

/// The colour of a smooth union: a directional mix weighted by how far each
/// child sits from the blended surface, pulled toward the plain average of
/// the two child colours inside the overlap region. When the children are
/// equidistant the directional ratio is the midpoint, never a division by
/// zero.
pub open spec fn smooth_colour(l: DistColour, r: DistColour, k: int) -> V3 {
    if k <= 0 {
        if l.d < r.d {
            l.colour
        } else {
            r.colour
        }
    } else {
        let d = smooth_min(l.d, r.d, k);
        let h = f_div(f_max(f_sub(k, f_abs(f_sub(l.d, r.d))), 0), k);
        let ctr = if l.d == r.d {
            (SCALE as int) / 2
        } else {
            f_div(f_sub(l.d, d), f_abs(f_sub(l.d, r.d)))
        };
        let dir = v_add(v_scale(l.colour, f_sub(SCALE as int, ctr)), v_scale(r.colour, ctr));
        let sum = v_add(l.colour, r.colour);
        let mean = V3 { x: f_divi(sum.x, 2), y: f_divi(sum.y, 2), z: f_divi(sum.z, 2) };
        v_add(v_scale(mean, h), v_scale(dir, f_sub(SCALE as int, h)))
    }
}

/// The combined signed distance of a subtree at a world point. A leaf feeds
/// the point through its vertex shader and into the object's distance; an
/// interior node combines its children by its operator.
pub open spec fn node_distance(n: TreeNode, p: V3) -> int
    decreases n,
{
    match n {
        TreeNode::Leaf(o) => object_distance(o, vert_eval(o.vertex_shader, p)),
        TreeNode::Node(t) => {
            let l = node_distance(*t.left, p);
            let r = node_distance(*t.right, p);
            match t.operation {
                Operation::Union => f_min(l, r),
                Operation::SmoothUnion(k) => smooth_min(l, r, k as int),
                Operation::Intersection => f_max(l, r),
            }
        },
    }
}

/// The combined distance and colour of a subtree at a world point. The
/// fragment shader always receives the untransformed world point.
pub open spec fn node_distance_colour(n: TreeNode, p: V3) -> DistColour
    decreases n,
{
    match n {
        TreeNode::Leaf(o) => DistColour {
            d: object_distance(o, vert_eval(o.vertex_shader, p)),
            colour: frag_eval(o.fragment_shader, p),
        },
        TreeNode::Node(t) => {
            let l = node_distance_colour(*t.left, p);
            let r = node_distance_colour(*t.right, p);
            match t.operation {
                Operation::Union => if l.d < r.d {
                    l
                } else {
                    r
                },
                Operation::SmoothUnion(k) => DistColour {
                    d: smooth_min(l.d, r.d, k as int),
                    colour: smooth_colour(l, r, k as int),
                },
                Operation::Intersection => if l.d > r.d {
                    l
                } else {
                    r
                },
            }
        },
    }
}

/// A union's distance is exactly the smaller of its children's distances,
/// at every point.
pub proof fn lemma_union_is_min(t: ObjectTree, p: V3)
    requires
        t.operation == Operation::Union,
    ensures
        node_distance(TreeNode::Node(t), p) == f_min(
            node_distance(*t.left, p),
            node_distance(*t.right, p),
        ),
{
}

/// An intersection's distance is exactly the larger of its children's
/// distances, at every point.
pub proof fn lemma_intersection_is_max(t: ObjectTree, p: V3)
    requires
        t.operation == Operation::Intersection,
    ensures
        node_distance(TreeNode::Node(t), p) == f_max(
            node_distance(*t.left, p),
            node_distance(*t.right, p),
        ),
{
}

/// The smooth union never rises above the hard minimum and never falls more
/// than a fifth of the blend radius below it.
pub proof fn lemma_smooth_union_bounds(a: int, b: int, k: int)
    requires
        i64::MIN <= a <= i64::MAX,
        i64::MIN <= b <= i64::MAX,
        0 < k <= i64::MAX,
    ensures
        f_min(a, b) - f_divi(k, 5) <= smooth_min(a, b, k) <= f_min(a, b),
{
    let s = SCALE as int;
    let m = f_min(a, b);
    let n = f_max(f_sub(k, f_abs(f_sub(a, b))), 0);
    assert(0 <= n <= k);
    let h = f_div(n, k);
    assert(0 <= n * s <= k * s) by (nonlinear_arith)
        requires
            0 <= n <= k,
            s > 0,
        ;
    lemma_div_pos_is_pos(n * s, k);
    lemma_div_is_ordered(n * s, k * s, k);
    lemma_div_multiples_vanish(s, k);
    assert((k * s) / k == s);
    assert(0 <= h <= s);
    let hh = f_mul(h, h);
    assert(0 <= h * h <= s * s) by (nonlinear_arith)
        requires
            0 <= h <= s,
        ;
    lemma_div_pos_is_pos(h * h, s);
    lemma_div_is_ordered(h * h, s * s, s);
    lemma_div_multiples_vanish(s, s);
    assert(0 <= hh <= s);
    let hhk = f_mul(hh, k);
    assert(0 <= hh * k <= s * k) by (nonlinear_arith)
        requires
            0 <= hh <= s,
            k > 0,
        ;
    lemma_div_pos_is_pos(hh * k, s);
    lemma_div_is_ordered(hh * k, s * k, s);
    lemma_div_multiples_vanish(k, s);
    assert(0 <= hhk <= k);
    let term = f_divi(hhk, 5);
    lemma_div_pos_is_pos(hhk, 5);
    lemma_div_is_ordered(hhk, k, 5);
    assert(0 <= term <= f_divi(k, 5));
}

/// As the blend radius shrinks, the smooth union approaches the hard union:
/// the gap is never more than a fifth of the radius.
pub proof fn lemma_smooth_union_limit(a: int, b: int, k: int)
    requires
        i64::MIN <= a <= i64::MAX,
        i64::MIN <= b <= i64::MAX,
        0 < k <= i64::MAX,
    ensures
        0 <= f_min(a, b) - smooth_min(a, b, k) <= f_divi(k, 5),
{
    lemma_smooth_union_bounds(a, b, k);
}

/// Every combined distance stays within the `i64` range: each operator is
/// built from saturating operations.
pub proof fn lemma_node_distance_bounded(n: TreeNode, p: V3)
    ensures
        i64::MIN <= node_distance(n, p) <= i64::MAX,
    decreases n,
{
    match n {
        TreeNode::Leaf(o) => {},
        TreeNode::Node(t) => {
            lemma_node_distance_bounded(*t.left, p);
            lemma_node_distance_bounded(*t.right, p);
        },
    }
}

/// At the tree level: a smooth-union node's distance sits between the hard
/// union of its children and that union less a fifth of the blend radius, at
/// every point. As the radius shrinks, the smooth union converges to the
/// hard union.
pub proof fn lemma_smooth_union_node(t: ObjectTree, k: i64, p: V3)
    requires
        t.operation == Operation::SmoothUnion(k),
        k > 0,
    ensures
        f_min(node_distance(*t.left, p), node_distance(*t.right, p)) - f_divi(k as int, 5)
            <= node_distance(TreeNode::Node(t), p),
        node_distance(TreeNode::Node(t), p) <= f_min(
            node_distance(*t.left, p),
            node_distance(*t.right, p),
        ),
{
    lemma_node_distance_bounded(*t.left, p);
    lemma_node_distance_bounded(*t.right, p);
    lemma_smooth_union_bounds(node_distance(*t.left, p), node_distance(*t.right, p), k as int);
}

/// The distance half of the combined query always equals the plain distance
/// query: both are the same pure function of the tree and the point.
pub proof fn lemma_distance_colour_agrees(n: TreeNode, p: V3)
    ensures
        node_distance_colour(n, p).d == node_distance(n, p),
    decreases n,
{
    match n {
        TreeNode::Leaf(o) => {},
        TreeNode::Node(t) => {
            lemma_distance_colour_agrees(*t.left, p);
            lemma_distance_colour_agrees(*t.right, p);
        },
    }
}

/// The smooth minimum, executed.
fn smooth_min_run(a: i64, b: i64, k: i64) -> (r: i64)
    ensures
        r as int == smooth_min(a as int, b as int, k as int),
{
    if k <= 0 {
        fx_min(a, b)
    } else {
        let h = fx_div(fx_max(fx_sub(k, fx_abs(fx_sub(a, b))), 0), k);
        fx_sub(fx_min(a, b), fx_divi(fx_mul(fx_mul(h, h), k), 5))
    }
}

/// The tree's distance query, leaf to root.
fn distance_node(node: &TreeNode, point: Vec3) -> (r: i64)
    ensures
        r as int == node_distance(*node, point@),
    decreases *node,
{
    match node {
        TreeNode::Leaf(object) => object.distance(object.vertex_shader.eval(point)),
        TreeNode::Node(tree) => {
            let l = distance_node(&tree.left, point);
            let r = distance_node(&tree.right, point);
            match tree.operation {
                Operation::Union => fx_min(l, r),
                Operation::SmoothUnion(k) => smooth_min_run(l, r, k),
                Operation::Intersection => fx_max(l, r),
            }
        },
    }
}

/// The tree's combined distance-and-colour query, leaf to root.
fn distance_colour_node(node: &TreeNode, point: Vec3) -> (r: (i64, Vec3))
    ensures
        node_distance_colour(*node, point@) == (DistColour { d: r.0 as int, colour: r.1@ }),
    decreases *node,
{
    match node {
        TreeNode::Leaf(object) => {
            let dist = object.distance(object.vertex_shader.eval(point));
            let col = object.fragment_shader.eval(point);
            (dist, col)
        },
        TreeNode::Node(tree) => {
            let (ld, lc) = distance_colour_node(&tree.left, point);
            let (rd, rc) = distance_colour_node(&tree.right, point);
            match tree.operation {
                Operation::Union => if ld < rd {
                    (ld, lc)
                } else {
                    (rd, rc)
                },
                Operation::SmoothUnion(k) => {
                    if k <= 0 {
                        if ld < rd {
                            (fx_min(ld, rd), lc)
                        } else {
                            (fx_min(ld, rd), rc)
                        }
                    } else {
                        let d = smooth_min_run(ld, rd, k);
                        let h = fx_div(fx_max(fx_sub(k, fx_abs(fx_sub(ld, rd))), 0), k);
                        let ctr = if ld == rd {
                            500_000
                        } else {
                            fx_div(fx_sub(ld, d), fx_abs(fx_sub(ld, rd)))
                        };
                        let dir = lc.scale(fx_sub(SCALE, ctr)).add(rc.scale(ctr));
                        let sum = lc.add(rc);
                        let mean = Vec3 {
                            x: fx_divi(sum.x, 2),
                            y: fx_divi(sum.y, 2),
                            z: fx_divi(sum.z, 2),
                        };
                        let col = mean.scale(h).add(dir.scale(fx_sub(SCALE, h)));
                        (d, col)
                    }
                },
                Operation::Intersection => if ld > rd {
                    (ld, lc)
                } else {
                    (rd, rc)
                },
            }
        },
    }
}

impl Scene {
    /// A scene from a camera and a tree root.
    pub fn new(camera: Camera, scene: TreeNode) -> (r: Scene)
        ensures
            r.camera == camera,
            r.scene == scene,
    {
        Scene { camera, scene }
    }

    /// The default scene: a camera at the origin looking down the negative z
    /// axis with a 45-degree field of view and 16:9 aspect, over a single
    /// unit sphere five units away.
    pub fn empty() -> (r: Scene)
        ensures
            r.camera@.position == (V3 { x: 0, y: 0, z: 0 }),
            r.camera@.direction == (V3 { x: 0, y: 0, z: -(SCALE as int) }),
            r.camera@.right == crate::camera::cam_right(
                V3 { x: 0, y: 0, z: -(SCALE as int) },
                V3 { x: 0, y: SCALE as int, z: 0 },
            ),
            r.camera@.up == crate::camera::cam_up(
                crate::camera::cam_right(
                    V3 { x: 0, y: 0, z: -(SCALE as int) },
                    V3 { x: 0, y: SCALE as int, z: 0 },
                ),
                V3 { x: 0, y: 0, z: -(SCALE as int) },
            ),
            r.camera@.fov == 785_398int,
            r.camera@.aspect_ratio == f_div(16 * (SCALE as int), 9 * (SCALE as int)),
            r.scene == TreeNode::Leaf(
                Object {
                    shape: Shape::Sphere,
                    position: Vec3 { x: 0, y: 0, z: -5_000_000i64 },
                    rotation: Quat { x: 0, y: 0, z: 0, w: SCALE },
                    scale: Vec3 { x: SCALE, y: SCALE, z: SCALE },
                    inflate: 0i64,
                    fragment_shader: FragmentShader::Constant(Vec3 { x: SCALE, y: 0, z: SCALE }),
                    vertex_shader: VertexShader::Identity,
                },
            ),
    {
        let camera = Camera::new(
            Vec3::new(0, 0, 0),
            Vec3::new(0, 0, -SCALE),
            Vec3::new(0, SCALE, 0),
            785_398,
            fx_div(fx_from_int(16), fx_from_int(9)),
        );
        let object = Object::new(
            Vec3::new(0, 0, -5_000_000),
            Quat::identity(),
            Vec3::new(SCALE, SCALE, SCALE),
            Shape::Sphere,
        );
        Scene { camera, scene: TreeNode::Leaf(object) }
    }

    /// The combined signed distance of the whole tree at a world point.
    pub fn distance(&self, point: Vec3) -> (r: i64)
        ensures
            r as int == node_distance(self.scene, point@),
    {
        distance_node(&self.scene, point)
    }

    /// The combined distance and colour of the whole tree at a world point.
    pub fn distance_and_colour(&self, point: Vec3) -> (r: (i64, Vec3))
        ensures
            node_distance_colour(self.scene, point@) == (DistColour {
                d: r.0 as int,
                colour: r.1@,
            }),
    {
        distance_colour_node(&self.scene, point)
    }

    /// Wraps the current root and the new object's leaf under a fresh hard
    /// union, so the new tree's distance at every point is the smaller of
    /// the old tree's and the object's.
    pub fn add_object(&mut self, object: Object)
        ensures
            final(self).camera == old(self).camera,
            final(self).scene matches TreeNode::Node(t) && t.operation == Operation::Union
                && *t.left == old(self).scene && *t.right == TreeNode::Leaf(object),
            forall|q: V3| #[trigger] node_distance(final(self).scene, q) == f_min(
                node_distance(old(self).scene, q),
                object_distance(object, vert_eval(object.vertex_shader, q)),
            ),
    {
        let mut prev = TreeNode::Leaf(object);
        core::mem::swap(&mut self.scene, &mut prev);
        self.scene = TreeNode::Node(
            ObjectTree {
                operation: Operation::Union,
                left: Box::new(prev),
                right: Box::new(TreeNode::Leaf(object)),
            },
        );
        proof {
            assert forall|q: V3| #[trigger] node_distance(self.scene, q) == f_min(
                node_distance(old(self).scene, q),
                object_distance(object, vert_eval(object.vertex_shader, q)),
            ) by {
                assert(node_distance(TreeNode::Leaf(object), q) == object_distance(
                    object,
                    vert_eval(object.vertex_shader, q),
                ));
            }
        }
    }

    /// Replaces the whole tree with a single leaf.
    pub fn set_first_object(&mut self, object: Object)
        ensures
            final(self).camera == old(self).camera,
            final(self).scene == TreeNode::Leaf(object),
    {
        self.scene = TreeNode::Leaf(object);
    }
}

/// Distance below which a step counts as a surface hit.
pub const EPS_HIT: i64 = 1_000;

/// Distance above which a step counts as an escape past the far bound.
pub const FAR_BOUND: i64 = 1_000_000_000;

/// Bound on marching steps per ray.
pub const MAX_STEPS: u32 = 500;

/// Starting value for the minimum-distance channel.
pub const START_MIN: i64 = 100_000_000_000;

/// How a march ended.
#[derive(Clone, Copy, Debug, PartialEq, Eq, Structural)]
pub enum Outcome {
    /// A step came within `EPS_HIT` of a surface.
    Hit,
    /// A step exceeded `FAR_BOUND`: the ray left the scene.
    MissEscaped,
    /// Neither happened within `MAX_STEPS` steps.
    MissExhausted,
}

/// Everything one marched ray yields: the outcome, the colour at the last
/// evaluated point, the final ray parameter, the accumulated distance, the
/// smallest distance seen, and the number of steps taken.
#[derive(Clone, Copy, Debug, PartialEq, Eq, Structural)]
pub struct MarchResult {
    pub outcome: Outcome,
    pub colour: Vec3,
    pub t: i64,
    pub total_distance: i64,
    pub min_distance: i64,
    pub iterations: u32,
}

/// Mathematical view of a march result.
#[verifier::ext_equal]
pub struct MarchV {
    pub outcome: Outcome,
    pub colour: V3,
    pub t: int,
    pub total_distance: int,
    pub min_distance: int,
    pub iterations: int,
}

impl View for MarchResult {
    type V = MarchV;

    open spec fn view(&self) -> MarchV {
        MarchV {
            outcome: self.outcome,
            colour: self.colour@,
            t: self.t as int,
            total_distance: self.total_distance as int,
            min_distance: self.min_distance as int,
            iterations: self.iterations as int,
        }
    }
}

/// Sphere tracing from a running state: evaluate the tree at the current
/// point, advance by the returned distance, and stop on a hit (distance
/// under `EPS_HIT`), an escape (over `FAR_BOUND`), or exhausted fuel.
pub open spec fn march_from(
    n: TreeNode,
    ray: RayV,
    t: int,
    total: int,
    mind: int,
    col: V3,
    steps: int,
    fuel: nat,
) -> MarchV
    decreases fuel,
{
    if fuel == 0 {
        MarchV {
            outcome: Outcome::MissExhausted,
            colour: col,
            t,
            total_distance: total,
            min_distance: mind,
            iterations: steps,
        }
    } else {
        let dc = node_distance_colour(n, ray_point(ray, t));
        let t2 = f_add(t, dc.d);
        let total2 = f_add(total, dc.d);
        let mind2 = f_min(mind, dc.d);
        if dc.d < EPS_HIT {
            MarchV {
                outcome: Outcome::Hit,
                colour: dc.colour,
                t: t2,
                total_distance: total2,
                min_distance: mind2,
                iterations: steps + 1,
            }
        } else if dc.d > FAR_BOUND {
            MarchV {
                outcome: Outcome::MissEscaped,
                colour: dc.colour,
                t: t2,
                total_distance: total2,
                min_distance: mind2,
                iterations: steps + 1,
            }
        } else {
            march_from(n, ray, t2, total2, mind2, dc.colour, steps + 1, (fuel - 1) as nat)
        }
    }
}

/// A whole march against a tree, from the ray's origin.
pub open spec fn march_spec(n: TreeNode, ray: RayV) -> MarchV {
    march_from(
        n,
        ray,
        0,
        0,
        START_MIN as int,
        V3 { x: 0, y: 0, z: 0 },
        0,
        MAX_STEPS as nat,
    )
}

/// The march behind one pixel: normalized coordinates `px / width` and
/// `py / height` feed the camera's pinhole formula.
#[verifier::opaque]
pub open spec fn pixel_march(c: CamV, n: TreeNode, w: int, h: int, px: int, py: int) -> MarchV {
    let u = f_div(px * (SCALE as int), w * (SCALE as int));
    let v = f_div(py * (SCALE as int), h * (SCALE as int));
    march_spec(n, cam_ray(c, u, v))
}

/// The colour a pixel shows: the hit colour, else background black.
pub open spec fn pixel_colour(m: MarchV) -> V3 {
    if m.outcome == Outcome::Hit {
        m.colour
    } else {
        V3 { x: 0, y: 0, z: 0 }
    }
}

/// The occlusion proxy of a pixel: one minus the used fraction of the step
/// budget.
pub open spec fn pixel_occlusion(m: MarchV) -> int {
    f_sub(
        SCALE as int,
        f_min(
            f_div(m.iterations * (SCALE as int), (MAX_STEPS as int) * (SCALE as int)),
            SCALE as int,
        ),
    )
}

/// The marching loop, step by step.
fn march_node(
    node: &TreeNode,
    ray: Ray,
    t: i64,
    total: i64,
    mind: i64,
    col: Vec3,
    steps: u32,
    fuel: u32,
) -> (r: MarchResult)
    requires
        steps + fuel <= MAX_STEPS,
    ensures
        r@ == march_from(*node, ray@, t as int, total as int, mind as int, col@, steps as int, fuel as nat),
    decreases fuel,
{
    if fuel == 0 {
        MarchResult {
            outcome: Outcome::MissExhausted,
            colour: col,
            t,
            total_distance: total,
            min_distance: mind,
            iterations: steps,
        }
    } else {
        let p = ray.point(t);
        let (d, c) = distance_colour_node(node, p);
        let t2 = fx_add(t, d);
        let total2 = fx_add(total, d);
        let mind2 = fx_min(mind, d);
        if d < EPS_HIT {
            MarchResult {
                outcome: Outcome::Hit,
                colour: c,
                t: t2,
                total_distance: total2,
                min_distance: mind2,
                iterations: steps + 1,
            }
        } else if d > FAR_BOUND {
            MarchResult {
                outcome: Outcome::MissEscaped,
                colour: c,
                t: t2,
                total_distance: total2,
                min_distance: mind2,
                iterations: steps + 1,
            }
        } else {
            march_node(node, ray, t2, total2, mind2, c, steps + 1, fuel - 1)
        }
    }
}

/// Per-pixel output channels of a render, each `height` rows of `width`
/// entries: colour, an occlusion proxy from the step count, accumulated
/// march distance, and the minimum distance seen along each ray.
#[derive(Debug)]
pub struct Render {
    pub colour: Vec<Vec<Vec3>>,
    pub steps: Vec<Vec<i64>>,
    pub depth: Vec<Vec<i64>>,
    pub min_distance: Vec<Vec<i64>>,
}

/// One pixel's channels: colour, occlusion proxy, depth, minimum distance.
fn render_pixel(camera: &Camera, node: &TreeNode, width: u32, height: u32, px: u32, py: u32) -> (r:
    (Vec3, i64, i64, i64))
    requires
        width >= 1,
        height >= 1,
    ensures
        ({
            let m = pixel_march(camera@, *node, width as int, height as int, px as int, py as int);
            &&& r.0@ == pixel_colour(m)
            &&& r.1 as int == pixel_occlusion(m)
            &&& r.2 as int == m.total_distance
            &&& r.3 as int == m.min_distance
        }),
{
    proof {
        reveal(pixel_march);
    }
    let u = fx_div(fx_from_u32(px), fx_from_u32(width));
    let v = fx_div(fx_from_u32(py), fx_from_u32(height));
    let ray = camera.ray(u, v);
    let m = march_node(node, ray, 0, 0, START_MIN, Vec3::new(0, 0, 0), 0, MAX_STEPS);
    let col = if m.outcome == Outcome::Hit {
        m.colour
    } else {
        Vec3::new(0, 0, 0)
    };
    let occ = fx_sub(
        SCALE,
        fx_min(fx_div(fx_from_u32(m.iterations), fx_from_u32(MAX_STEPS)), SCALE),
    );
    (col, occ, m.total_distance, m.min_distance)
}

impl Scene {
    /// Marches one ray against the scene tree.
    pub fn march(&self, ray: Ray) -> (r: MarchResult)
        ensures
            r@ == march_spec(self.scene, ray@),
    {
        march_node(&self.scene, ray, 0, 0, START_MIN, Vec3::new(0, 0, 0), 0, MAX_STEPS)
    }

    /// Renders the scene: one march per pixel, row-major (rows of `width`
    /// pixels, top row first), producing four equal-dimension channels.
    pub fn render(&self, width: u32, height: u32) -> (r: Render)
        requires
            width >= 1,
            height >= 1,
        ensures
            r.colour@.len() == height as int,
            r.steps@.len() == height as int,
            r.depth@.len() == height as int,
            r.min_distance@.len() == height as int,
            forall|py: int|
                0 <= py < height as int ==> {
                    &&& (#[trigger] r.colour@[py])@.len() == width as int
                    &&& r.steps@[py]@.len() == width as int
                    &&& r.depth@[py]@.len() == width as int
                    &&& r.min_distance@[py]@.len() == width as int
                },
            forall|py: int, px: int|
                0 <= py < height as int && 0 <= px < width as int ==> {
                    let m = pixel_march(
                        self.camera@,
                        self.scene,
                        width as int,
                        height as int,
                        px,
                        py,
                    );
                    &&& (#[trigger] r.colour@[py]@[px])@ == pixel_colour(m)
                    &&& r.steps@[py]@[px] as int == pixel_occlusion(m)
                    &&& r.depth@[py]@[px] as int == m.total_distance
                    &&& r.min_distance@[py]@[px] as int == m.min_distance
                },
    {
        let ghost w = width as int;
        let ghost h = height as int;
        let mut colour: Vec<Vec<Vec3>> = Vec::new();
        let mut steps: Vec<Vec<i64>> = Vec::new();
        let mut depth: Vec<Vec<i64>> = Vec::new();
        let mut min_distance: Vec<Vec<i64>> = Vec::new();
        let mut py: u32 = 0;
        while py < height
            invariant
                width >= 1,
                height >= 1,
                py <= height,
                w == width as int,
                h == height as int,
                colour@.len() == py as int,
                steps@.len() == py as int,
                depth@.len() == py as int,
                min_distance@.len() == py as int,
                forall|r0: int|
                    0 <= r0 < py as int ==> {
                        &&& (#[trigger] colour@[r0])@.len() == w
                        &&& steps@[r0]@.len() == w
                        &&& depth@[r0]@.len() == w
                        &&& min_distance@[r0]@.len() == w
                    },
                forall|r0: int, c0: int|
                    0 <= r0 < py as int && 0 <= c0 < w ==> {
                        let m = pixel_march(self.camera@, self.scene, w, h, c0, r0);
                        &&& (#[trigger] colour@[r0]@[c0])@ == pixel_colour(m)
                        &&& steps@[r0]@[c0] as int == pixel_occlusion(m)
                        &&& depth@[r0]@[c0] as int == m.total_distance
                        &&& min_distance@[r0]@[c0] as int == m.min_distance
                    },
            decreases height - py,
        {
            let mut row_colour: Vec<Vec3> = Vec::new();
            let mut row_steps: Vec<i64> = Vec::new();
            let mut row_depth: Vec<i64> = Vec::new();
            let mut row_min: Vec<i64> = Vec::new();
            let mut px: u32 = 0;
            while px < width
                invariant
                    width >= 1,
                    height >= 1,
                    px <= width,
                    py < height,
                    w == width as int,
                    h == height as int,
                    row_colour@.len() == px as int,
                    row_steps@.len() == px as int,
                    row_depth@.len() == px as int,
                    row_min@.len() == px as int,
                    forall|c0: int|
                        0 <= c0 < px as int ==> {
                            let m = pixel_march(self.camera@, self.scene, w, h, c0, py as int);
                            &&& (#[trigger] row_colour@[c0])@ == pixel_colour(m)
                            &&& row_steps@[c0] as int == pixel_occlusion(m)
                            &&& row_depth@[c0] as int == m.total_distance
                            &&& row_min@[c0] as int == m.min_distance
                        },
                decreases width - px,
            {
                let (col, occ, dep, mnd) = render_pixel(
                    &self.camera,
                    &self.scene,
                    width,
                    height,
                    px,
                    py,
                );
                row_colour.push(col);
                row_steps.push(occ);
                row_depth.push(dep);
                row_min.push(mnd);
                px = px + 1;
            }
            colour.push(row_colour);
            steps.push(row_steps);
            depth.push(row_depth);
            min_distance.push(row_min);
            proof {
                assert forall|r0: int| 0 <= r0 < py as int + 1 implies {
                    &&& (#[trigger] colour@[r0])@.len() == w
                    &&& steps@[r0]@.len() == w
                    &&& depth@[r0]@.len() == w
                    &&& min_distance@[r0]@.len() == w
                } by {
                    if r0 == py as int {
                        assert(colour@[r0] == row_colour);
                        assert(steps@[r0] == row_steps);
                        assert(depth@[r0] == row_depth);
                        assert(min_distance@[r0] == row_min);
                    }
                }
                assert forall|r0: int, c0: int|
                    0 <= r0 < py as int + 1 && 0 <= c0 < w implies {
                    let m = pixel_march(self.camera@, self.scene, w, h, c0, r0);
                    &&& (#[trigger] colour@[r0]@[c0])@ == pixel_colour(m)
                    &&& steps@[r0]@[c0] as int == pixel_occlusion(m)
                    &&& depth@[r0]@[c0] as int == m.total_distance
                    &&& min_distance@[r0]@[c0] as int == m.min_distance
                } by {
                    if r0 == py as int {
                        assert(colour@[r0] == row_colour);
                        assert(steps@[r0] == row_steps);
                        assert(depth@[r0] == row_depth);
                        assert(min_distance@[r0] == row_min);
                    }
                }
            }
            py = py + 1;
        }
        Render { colour, steps, depth, min_distance }
    }
}

} // verus!
