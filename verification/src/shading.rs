//! The shading model: checker texture, hard shadows, diffuse light and
//! mirror reflection of bounded depth.

use crate::intersect::{
    hits, intersect_scene, intersect_scene_spec, is_valid, lemma_nearest_is_first_minimum, nearest,
    normal, normal_spec, Ray,
};
use crate::scalar::{Scalar, ONE_BITS, TWO_BITS, ZERO_BITS};
use crate::scene::{Object, Plane, Scene, SceneModel};
use crate::vector::Vector;
use vstd::prelude::*;

verus! {

/// Rays of depth `0`, `1` and `2` are traced; a deeper one adds no colour.
pub const MAX_DEPTH: usize = 2;

pub open spec fn zero() -> Scalar {
    Scalar { bits: ZERO_BITS }
}

pub open spec fn one() -> Scalar {
    Scalar { bits: ONE_BITS }
}

/// Width of a checker cell, `2.0`.
pub open spec fn cell_width() -> Scalar {
    Scalar { bits: TWO_BITS }
}

/// The smaller of two numbers; `a` where they do not compare.
pub open spec fn min_spec(a: Scalar, b: Scalar) -> Scalar {
    if a.gt_spec(b) {
        b
    } else {
        a
    }
}

/// Which half of its checker cell a coordinate falls in: with `m` the
/// remainder of `c` by the cell width, `(c < 0 ∧ m < −1) ∨ (c > 0 ∧ m < 1)`.
pub open spec fn parity_spec(c: Scalar) -> bool {
    let m = c.rem_spec(cell_width());
    (c.lt_spec(zero()) && m.lt_spec(one().neg_spec())) || (c.gt_spec(zero()) && m.lt_spec(one()))
}

/// The two directions along which a plane is cut into cells.  They are
/// chosen by the normal's components and fit axis-aligned planes only.
pub open spec fn checker_basis(plane_normal: Vector) -> (Vector, Vector) {
    let o = zero();
    let i = one();
    if plane_normal.y.ne_spec(o) {
        (Vector { x: o, y: o, z: i }, Vector { x: i, y: o, z: o })
    } else if plane_normal.z.ne_spec(o) {
        (Vector { x: o, y: i, z: o }, Vector { x: i, y: o, z: i })
    } else {
        (Vector { x: o, y: i, z: o }, Vector { x: o, y: o, z: i })
    }
}

/// Colour of a plane at one of its points: the first checker colour where
/// exactly one of the two cell coordinates has parity, else the second.
pub open spec fn plane_color_spec(point: Vector, plane: Plane, scene: SceneModel) -> Vector {
    let from_origin = point.subtract_spec(plane.point);
    let basis = checker_basis(plane.normal);
    let cx = basis.0.dot_spec(from_origin);
    let cy = basis.1.dot_spec(from_origin);
    if parity_spec(cx) != parity_spec(cy) {
        scene.checker[0]
    } else {
        scene.checker[1]
    }
}

/// The ray from a surface point towards a light.
pub open spec fn shadow_ray(point: Vector, light: Vector) -> Ray {
    Ray { point, vector: light.subtract_spec(point).unit_spec() }
}

/// A light reaches a point when the ray towards it hits nothing, or hits
/// nothing nearer than the light.
pub open spec fn is_light_visible_spec(point: Vector, scene: SceneModel, light: Vector) -> bool {
    match intersect_scene_spec(shadow_ray(point, light), scene).0 {
        None => true,
        Some(distance) => distance.ge_spec(light.subtract_spec(point).length_spec()),
    }
}

/// Cosine between the surface normal and the direction to the light.
pub open spec fn light_cosine(point: Vector, surface_normal: Vector, light: Vector) -> Scalar {
    light.subtract_spec(point).unit_spec().dot_spec(surface_normal)
}

/// Whether a light adds to the diffuse term: it is visible from the point
/// and lies on the outer side of the surface.
pub open spec fn light_counts(
    point: Vector,
    surface_normal: Vector,
    scene: SceneModel,
    light: Vector,
) -> bool {
    is_light_visible_spec(point, scene, light) && light_cosine(point, surface_normal, light).gt_spec(
        zero(),
    )
}

/// Sum of the cosines of the first `n` lights that count, in scene order.
pub open spec fn lambert_sum(
    point: Vector,
    surface_normal: Vector,
    scene: SceneModel,
    n: nat,
) -> Scalar
    decreases n,
{
    if n == 0 {
        zero()
    } else {
        let before = lambert_sum(point, surface_normal, scene, (n - 1) as nat);
        let light = scene.lights[n - 1];
        if light_counts(point, surface_normal, scene, light) {
            before.add_spec(light_cosine(point, surface_normal, light))
        } else {
            before
        }
    }
}

/// Diffuse light at a point, at most `1`.  A surface that has no diffuse
/// coefficient asks for no shadow rays and gets `0`.
pub open spec fn lambert_amount_spec(
    lambert: Scalar,
    point: Vector,
    surface_normal: Vector,
    scene: SceneModel,
) -> Scalar {
    let sum = if lambert.gt_spec(zero()) {
        lambert_sum(point, surface_normal, scene, scene.lights.len())
    } else {
        zero()
    };
    min_spec(sum, one())
}

/// The surface colour before lighting.
pub open spec fn base_color_spec(object: Object, point: Vector, scene: SceneModel) -> Vector {
    match object {
        Object::Plane(plane) => plane_color_spec(point, plane, scene),
        Object::Sphere(sphere) => sphere.color,
    }
}

/// Reflections left before the depth bound cuts in.
pub open spec fn budget(depth: nat) -> nat {
    if depth > MAX_DEPTH {
        0
    } else {
        (MAX_DEPTH + 1 - depth) as nat
    }
}

/// Colour seen along a ray, or `None` beyond the depth bound.  A ray that
/// hits nothing sees black.
pub open spec fn trace_spec(ray: Ray, scene: SceneModel, depth: nat) -> Option<Vector>
    decreases budget(depth), 2int,
{
    if depth > MAX_DEPTH {
        None
    } else {
        match intersect_scene_spec(ray, scene) {
            (Some(distance), Some(object)) => {
                let point = ray.point.add_spec(ray.vector.scale_spec(distance));
                Some(surface_spec(ray, scene, object, point, normal_spec(object, point), depth))
            },
            _ => Some(Vector::zero_spec()),
        }
    }
}

/// The mirrored colour that a surface adds for a ray of the given depth:
/// the colour seen along the reflected ray, scaled by the specular
/// coefficient, where that coefficient is positive and a colour comes back.
pub open spec fn reflection_spec(
    ray: Ray,
    scene: SceneModel,
    specular: Scalar,
    point: Vector,
    surface_normal: Vector,
    depth: nat,
) -> Vector
    decreases budget(depth), 0int,
{
    let reflected = Ray { point, vector: ray.vector.reflect_spec(surface_normal) };
    if specular.gt_spec(zero()) && depth <= MAX_DEPTH {
        match trace_spec(reflected, scene, depth + 1) {
            Some(color) => Vector::zero_spec().add_spec(color.scale_spec(specular)),
            None => Vector::zero_spec(),
        }
    } else {
        Vector::zero_spec()
    }
}

/// Colour of a surface point: `reflection + base·(diffuse·lambert) +
/// base·ambient`.
pub open spec fn surface_spec(
    ray: Ray,
    scene: SceneModel,
    object: Object,
    point: Vector,
    surface_normal: Vector,
    depth: nat,
) -> Vector
    decreases budget(depth), 1int,
{
    let b = base_color_spec(object, point, scene);
    let amount = lambert_amount_spec(object.lambert_spec(), point, surface_normal, scene);
    let c = reflection_spec(ray, scene, object.specular_spec(), point, surface_normal, depth);
    c.add3_spec(
        b.scale_spec(amount.mul_spec(object.lambert_spec())),
        b.scale_spec(object.ambient_spec()),
    )
}

/// Whether a candidate distance on the way to a light hides that light: it
/// is a valid hit and does not lie at or beyond the light.
pub open spec fn blocks(candidate: Option<Scalar>, distance_to_light: Scalar) -> bool {
    is_valid(candidate) && !candidate->0.ge_spec(distance_to_light)
}

/// A light reaches a point exactly when no object of the scene is hit by
/// the ray towards the light before the light itself.
pub proof fn lemma_light_visible_iff_unobstructed(point: Vector, scene: SceneModel, light: Vector)
    ensures
        is_light_visible_spec(point, scene, light) <==> forall|j: int|
            0 <= j < scene.objects.len() ==> !blocks(
                #[trigger] hits(shadow_ray(point, light), scene.objects)[j],
                light.subtract_spec(point).length_spec(),
            ),
{
    let candidates = hits(shadow_ray(point, light), scene.objects);
    let reach = light.subtract_spec(point).length_spec();
    lemma_nearest_is_first_minimum(candidates);
    match nearest(candidates) {
        Some(k) => {
            if candidates[k]->0.ge_spec(reach) {
                assert forall|j: int| 0 <= j < scene.objects.len() implies !blocks(
                    #[trigger] candidates[j],
                    reach,
                ) by {
                    if is_valid(candidates[j]) {
                        assert(candidates[k]->0.le_spec(candidates[j]->0));
                    }
                }
            } else {
                assert(blocks(candidates[k], reach));
            }
        },
        None => {
            assert forall|j: int| 0 <= j < scene.objects.len() implies !blocks(
                #[trigger] candidates[j],
                reach,
            ) by {
                assert(!is_valid(candidates[j]));
            }
        },
    }
}

/// A light that does not reach the point leaves the diffuse sum as it was,
/// and one that reaches it from the outer side adds its cosine.
pub proof fn lemma_light_contribution(
    point: Vector,
    surface_normal: Vector,
    scene: SceneModel,
    n: nat,
)
    requires
        0 < n <= scene.lights.len(),
    ensures
        !is_light_visible_spec(point, scene, scene.lights[n - 1]) ==> lambert_sum(
            point,
            surface_normal,
            scene,
            n,
        ) == lambert_sum(point, surface_normal, scene, (n - 1) as nat),
        light_counts(point, surface_normal, scene, scene.lights[n - 1]) ==> lambert_sum(
            point,
            surface_normal,
            scene,
            n,
        ) == lambert_sum(point, surface_normal, scene, (n - 1) as nat).add_spec(
            light_cosine(point, surface_normal, scene.lights[n - 1]),
        ),
{
}

/// Where no light reaches a point, the point gets no diffuse light at all.
pub proof fn lemma_shadowed_point_is_unlit(
    lambert: Scalar,
    point: Vector,
    surface_normal: Vector,
    scene: SceneModel,
)
    requires
        forall|i: int|
            0 <= i < scene.lights.len() ==> !is_light_visible_spec(
                point,
                scene,
                #[trigger] scene.lights[i],
            ),
    ensures
        lambert_amount_spec(lambert, point, surface_normal, scene) == zero(),
{
    lemma_unlit_prefix(point, surface_normal, scene, scene.lights.len());
}

proof fn lemma_unlit_prefix(point: Vector, surface_normal: Vector, scene: SceneModel, n: nat)
    requires
        n <= scene.lights.len(),
        forall|i: int|
            0 <= i < scene.lights.len() ==> !is_light_visible_spec(
                point,
                scene,
                #[trigger] scene.lights[i],
            ),
    ensures
        lambert_sum(point, surface_normal, scene, n) == zero(),
    decreases n,
{
    if n > 0 {
        lemma_unlit_prefix(point, surface_normal, scene, (n - 1) as nat);
    }
}

/// Colour comes back exactly for the depths up to the bound, and a surface
/// struck by a ray of the last depth gets no mirrored colour, whatever its
/// specular coefficient: at most two reflections add to a pixel.
pub proof fn lemma_reflection_is_bounded(
    ray: Ray,
    scene: SceneModel,
    specular: Scalar,
    point: Vector,
    surface_normal: Vector,
    depth: nat,
)
    ensures
        trace_spec(ray, scene, depth) is Some <==> depth <= MAX_DEPTH,
        depth >= MAX_DEPTH ==> reflection_spec(ray, scene, specular, point, surface_normal, depth)
            == Vector::zero_spec(),
{
}

pub fn min(a: Scalar, b: Scalar) -> (r: Scalar)
    ensures
        r == min_spec(a, b),
{
    if a.gt(b) {
        return b;
    }
    a
}

/// Which half of its checker cell the coordinate `c` falls in.
pub fn parity(c: Scalar) -> (r: bool)
    ensures
        r == parity_spec(c),
{
    let width = Scalar { bits: TWO_BITS };
    let half = Scalar { bits: ONE_BITS };
    let origin = Scalar { bits: ZERO_BITS };
    let m = c.rem(width);
    (c.lt(origin) && m.lt(half.neg())) || (c.gt(origin) && m.lt(half))
}

/// The two directions along which the plane with this normal is cut into
/// cells.
pub fn checker_axes(plane_normal: &Vector) -> (r: (Vector, Vector))
    ensures
        r == checker_basis(*plane_normal),
{
    let o = Scalar { bits: ZERO_BITS };
    let i = Scalar { bits: ONE_BITS };
    let mut px = Vector::new(o, i, o);
    let mut py = Vector::new(o, o, i);

    if plane_normal.z.ne(o) {
        py = Vector::new(i, o, i);
    }
    if plane_normal.y.ne(o) {
        px = Vector::new(o, o, i);
        py = Vector::new(i, o, o);
    }
    (px, py)
}

/// Checker colour of the plane at `point_at_time`.
pub fn plane_color_at(point_at_time: &Vector, plane: &Plane, scene: &Scene) -> (r: Vector)
    requires
        scene@.wf(),
    ensures
        r == plane_color_spec(*point_at_time, *plane, scene@),
        r == scene.checker[0] || r == scene.checker[1],
{
    let from_origin = point_at_time.subtract(&plane.point);
    let (px, py) = checker_axes(&plane.normal);

    let cx = px.dot_product(&from_origin);
    let cy = py.dot_product(&from_origin);

    let x_cond = parity(cx);
    let y_cond = parity(cy);

    if (x_cond && !y_cond) || (y_cond && !x_cond) {
        return scene.checker[0];
    }
    scene.checker[1]
}

/// Whether the light reaches the point unobstructed.
pub fn is_light_visible(point: &Vector, scene: &Scene, light: &Vector) -> (r: bool)
    ensures
        r == is_light_visible_spec(*point, scene@, *light),
{
    let point_to_light_vector = light.subtract(point);
    let distance_to_light = point_to_light_vector.length();

    let ray = Ray { point: *point, vector: point_to_light_vector.unit() };
    let (dist, _) = intersect_scene(&ray, scene);
    match dist {
        None => true,
        Some(distance) => distance.ge(distance_to_light),
    }
}

/// Sum over the lights that reach the point of the cosine at which they
/// strike the surface, lights behind the surface left out.
pub fn lambert_total(point: &Vector, surface_normal: &Vector, scene: &Scene) -> (r: Scalar)
    ensures
        r == lambert_sum(*point, *surface_normal, scene@, scene@.lights.len()),
{
    let mut total = Scalar { bits: ZERO_BITS };
    let mut i: usize = 0;
    while i < scene.lights.len()
        invariant
            i <= scene.lights.len(),
            total == lambert_sum(*point, *surface_normal, scene@, i as nat),
        decreases scene.lights.len() - i,
    {
        let light = &scene.lights[i];
        i += 1;
        if !is_light_visible(point, scene, light) {
            continue ;
        }
        let contribution = light.subtract(point).unit().dot_product(surface_normal);

        if contribution.gt(Scalar { bits: ZERO_BITS }) {
            total = total.add(contribution);
        }
    }
    total
}

/// Colour of the point `point_at_time` of `object`, hit by `ray`.
pub fn surface(
    ray: &Ray,
    scene: &Scene,
    object: &Object,
    point_at_time: &Vector,
    surface_normal: &Vector,
    depth: usize,
) -> (r: Vector)
    requires
        scene@.wf(),
    ensures
        r == surface_spec(
            *ray,
            scene@,
            *object,
            *point_at_time,
            *surface_normal,
            depth as nat,
        ),
    decreases budget(depth as nat), 0int,
{
    let origin = Scalar { bits: ZERO_BITS };
    let (b, lambert, specular, ambient) = match object {
        Object::Plane(obj) => (
            plane_color_at(point_at_time, obj, scene),
            obj.lambert,
            obj.specular,
            obj.ambient,
        ),
        Object::Sphere(obj) => (obj.color, obj.lambert, obj.specular, obj.ambient),
    };
    let mut c = Vector::zero();
    let mut lambert_amount = Scalar { bits: ZERO_BITS };

    if lambert.gt(origin) {
        lambert_amount = lambert_total(point_at_time, surface_normal, scene);
    }
    if specular.gt(origin) && depth <= MAX_DEPTH {
        let reflected_ray = Ray {
            point: *point_at_time,
            vector: ray.vector.reflect_through(surface_normal),
        };
        let reflected_color = trace(&reflected_ray, scene, depth + 1);
        match reflected_color {
            Some(color) => {
                c = c.add(&color.scale(specular));
            },
            _ => {},
        }
    }
    lambert_amount = min(lambert_amount, Scalar { bits: ONE_BITS });

    c.add3(&b.scale(lambert_amount.mul(lambert)), &b.scale(ambient))
}

/// Colour seen along `ray`; `None` where `depth` is beyond the bound.
pub fn trace(ray: &Ray, scene: &Scene, depth: usize) -> (r: Option<Vector>)
    requires
        scene@.wf(),
    ensures
        r == trace_spec(*ray, scene@, depth as nat),
        r is Some <==> depth <= MAX_DEPTH,
    decreases budget(depth as nat), 1int,
{
    if depth > MAX_DEPTH {
        return None;
    }
    let dist_object = intersect_scene(ray, scene);

    match dist_object.0 {
        None => Some(Vector::zero()),
        Some(distance) => {
            let collision = dist_object.1;
            match collision {
                None => Some(Vector::zero()),
                Some(object) => {
                    let point_in_time = ray.point.add(&ray.vector.scale(distance));
                    let n = normal(object, &point_in_time);
                    Some(surface(ray, scene, object, &point_in_time, &n, depth))
                },
            }
        },
    }
}

} // verus!
