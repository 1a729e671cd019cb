//! Ray/primitive intersection and the search for the nearest hit.

use crate::scalar::{Scalar, ZERO_BITS};
use crate::scene::{Object, Plane, Scene, SceneModel, Sphere};
use crate::vector::Vector;
use vstd::prelude::*;

verus! {

/// Encoding of `0.001`, the least distance at which a hit counts.  It keeps a
/// ray that starts on a surface from hitting that surface again.
pub const THRESHOLD_BITS: u32 = 0x3a83_126f;

/// A half-line from `point` along `vector`.
#[derive(Clone, Copy, Debug)]
pub struct Ray {
    pub point: Vector,
    pub vector: Vector,
}

pub open spec fn threshold() -> Scalar {
    Scalar { bits: THRESHOLD_BITS }
}

/// Distance along the ray to the near intersection with the sphere.
///
/// With `L = centre − origin`, `v = L·direction` and the discriminant
/// `radius² − L·L + v²`, the candidate is `v − √discriminant`.  There is no
/// hit when the discriminant is negative, nor when the candidate does not
/// exceed the threshold.
pub open spec fn sphere_hit_spec(sphere: Sphere, ray: Ray) -> Option<Scalar> {
    let to_centre = sphere.point.subtract_spec(ray.point);
    let v = to_centre.dot_spec(ray.vector);
    let discriminant = sphere.radius.mul_spec(sphere.radius).sub_spec(
        to_centre.dot_spec(to_centre),
    ).add_spec(v.mul_spec(v));
    let distance = v.sub_spec(discriminant.sqrt_spec());
    if discriminant.lt_spec(Scalar { bits: ZERO_BITS }) {
        None
    } else if distance.gt_spec(threshold()) {
        Some(distance)
    } else {
        None
    }
}

/// Distance along the ray to the plane, seen from its visible side only.
///
/// With `n` the negated normal and `denom = n·direction`, the plane is hit
/// when `denom > 0`, at `(point − origin)·n / denom`.  The distance is not
/// held against the threshold here.
pub open spec fn plane_hit_spec(plane: Plane, ray: Ray) -> Option<Scalar> {
    let n = plane.normal.negate_spec();
    let denom = n.dot_spec(ray.vector);
    if denom.le_spec(Scalar { bits: ZERO_BITS }) {
        None
    } else {
        Some(plane.point.subtract_spec(ray.point).dot_spec(n).div_spec(denom))
    }
}

pub open spec fn hit_spec(object: Object, ray: Ray) -> Option<Scalar> {
    match object {
        Object::Sphere(sphere) => sphere_hit_spec(sphere, ray),
        Object::Plane(plane) => plane_hit_spec(plane, ray),
    }
}

/// Outward unit normal of a primitive at a point of its surface.
pub open spec fn normal_spec(object: Object, pos: Vector) -> Vector {
    match object {
        Object::Sphere(sphere) => pos.subtract_spec(sphere.point).unit_spec(),
        Object::Plane(plane) => plane.normal.unit_spec(),
    }
}

/// A candidate distance that may become the nearest hit: it is present and
/// exceeds the threshold.
pub open spec fn is_valid(candidate: Option<Scalar>) -> bool {
    candidate matches Some(d) && d.gt_spec(threshold())
}

/// Whether candidate `a` replaces the current best `b`: `a` is valid and,
/// where there is a best already, strictly nearer than it.
pub open spec fn closer_spec(a: Option<Scalar>, b: Option<Scalar>) -> bool {
    match a {
        None => false,
        Some(a_distance) => match b {
            None => a_distance.gt_spec(threshold()),
            Some(b_distance) => a_distance.gt_spec(threshold()) && a_distance.lt_spec(
                b_distance,
            ),
        },
    }
}

/// The candidate distances of a ray, one for each object in scene order.
pub open spec fn hits(ray: Ray, objects: Seq<Object>) -> Seq<Option<Scalar>> {
    Seq::new(objects.len(), |i: int| hit_spec(objects[i], ray))
}

/// Index of the candidate that an in-order scan keeps, replacing its best
/// whenever [`closer_spec`] says so.
pub open spec fn nearest(candidates: Seq<Option<Scalar>>) -> Option<int>
    decreases candidates.len(),
{
    if candidates.len() == 0 {
        None
    } else {
        let before = nearest(candidates.drop_last());
        let best = match before {
            Some(k) => candidates[k],
            None => None,
        };
        if closer_spec(candidates.last(), best) {
            Some(candidates.len() - 1)
        } else {
            before
        }
    }
}

/// `k` is the first index among the valid candidates of least distance.
pub open spec fn is_first_minimum(candidates: Seq<Option<Scalar>>, k: int) -> bool {
    &&& 0 <= k < candidates.len()
    &&& is_valid(candidates[k])
    &&& forall|i: int|
        0 <= i < candidates.len() && is_valid(#[trigger] candidates[i]) ==> candidates[k]->0.le_spec(
            candidates[i]->0,
        )
    &&& forall|i: int|
        0 <= i < k && is_valid(#[trigger] candidates[i]) ==> candidates[k]->0.lt_spec(
            candidates[i]->0,
        )
}

/// The nearest hit of a ray in a scene: its distance and the object hit.
pub open spec fn intersect_scene_spec(ray: Ray, scene: SceneModel) -> (
    Option<Scalar>,
    Option<Object>,
) {
    match nearest(hits(ray, scene.objects)) {
        Some(k) => (hits(ray, scene.objects)[k], Some(scene.objects[k])),
        None => (None, None),
    }
}

/// The scan finds nothing exactly when no candidate is valid, and otherwise
/// it finds the first of the nearest valid candidates.
pub proof fn lemma_nearest_is_first_minimum(candidates: Seq<Option<Scalar>>)
    ensures
        match nearest(candidates) {
            Some(k) => is_first_minimum(candidates, k),
            None => forall|i: int| 0 <= i < candidates.len() ==> !is_valid(#[trigger] candidates[i]),
        },
    decreases candidates.len(),
{
    if candidates.len() > 0 {
        let front = candidates.drop_last();
        lemma_nearest_is_first_minimum(front);
        assert(forall|i: int| 0 <= i < front.len() ==> front[i] == candidates[i]);
        match nearest(candidates) {
            Some(k) => {
                assert(is_valid(candidates[k]));
                assert forall|i: int|
                    0 <= i < candidates.len() && is_valid(
                        #[trigger] candidates[i],
                    ) implies candidates[k]->0.le_spec(candidates[i]->0) by {
                    if i < front.len() {
                        assert(is_valid(front[i]));
                    }
                }
                assert forall|i: int| 0 <= i < k && is_valid(#[trigger] candidates[i]) implies candidates[k]->0.lt_spec(
                    candidates[i]->0,
                ) by {
                    assert(is_valid(front[i]));
                }
            },
            None => {
                assert forall|i: int| 0 <= i < candidates.len() implies !is_valid(
                    #[trigger] candidates[i],
                ) by {
                    if i < front.len() {
                        assert(!is_valid(front[i]));
                    }
                }
            },
        }
    }
}

/// At most one index is the first minimum, so [`is_first_minimum`] says
/// which candidate the scan keeps.
pub proof fn lemma_first_minimum_is_nearest(candidates: Seq<Option<Scalar>>, k: int)
    requires
        is_first_minimum(candidates, k),
    ensures
        nearest(candidates) == Some(k),
{
    lemma_nearest_is_first_minimum(candidates);
    match nearest(candidates) {
        Some(j) => {
            assert(is_valid(candidates[j]));
            assert(is_valid(candidates[k]));
        },
        None => {
            assert(!is_valid(candidates[k]));
        },
    }
}

/// No ray hits anything at or within the threshold distance of its origin:
/// a ray that leaves a surface does not catch that surface again.
pub proof fn lemma_hit_beyond_threshold(ray: Ray, scene: SceneModel)
    ensures
        intersect_scene_spec(ray, scene).0 matches Some(d) ==> d.gt_spec(threshold()),
        intersect_scene_spec(ray, scene).0 is Some <==> intersect_scene_spec(ray, scene).1 is Some,
        forall|sphere: Sphere| #[trigger]
            sphere_hit_spec(sphere, ray) matches Some(d) ==> d.gt_spec(threshold()),
{
    lemma_nearest_is_first_minimum(hits(ray, scene.objects));
}

/// Whether candidate `a` replaces the current best `b`.
pub fn closer(a: &Option<Scalar>, b: &Option<Scalar>) -> (r: bool)
    ensures
        r == closer_spec(*a, *b),
{
    let limit = Scalar { bits: THRESHOLD_BITS };
    match a {
        None => false,
        Some(a_distance) => match b {
            None => a_distance.gt(limit),
            Some(b_distance) => a_distance.gt(limit) && a_distance.lt(*b_distance),
        },
    }
}

/// Distance along the ray at which it hits the object, if it does.
pub fn object_intersection(object: &Object, ray: &Ray) -> (r: Option<Scalar>)
    ensures
        r == hit_spec(*object, *ray),
        object is Sphere && r is Some ==> r->0.gt_spec(threshold()),
{
    let zero = Scalar { bits: ZERO_BITS };
    match object {
        Object::Sphere(sphere) => {
            let eye_to_center = sphere.point.subtract(&ray.point);
            let v = eye_to_center.dot_product(&ray.vector);
            let eo_dot = eye_to_center.dot_product(&eye_to_center);
            let discriminant = sphere.radius.mul(sphere.radius).sub(eo_dot).add(v.mul(v));

            if discriminant.lt(zero) {
                return None;
            }
            let distance = v.sub(discriminant.sqrt());

            if distance.gt(Scalar { bits: THRESHOLD_BITS }) {
                return Some(distance);
            }
            None
        },
        Object::Plane(plane) => {
            let neg_norm = plane.normal.negate();
            let denom = neg_norm.dot_product(&ray.vector);

            if denom.le(zero) {
                return None;
            }
            let interm = plane.point.subtract(&ray.point);
            Some(interm.dot_product(&neg_norm).div(denom))
        },
    }
}

/// Outward unit normal of the object at `pos`.
pub fn normal(object: &Object, pos: &Vector) -> (r: Vector)
    ensures
        r == normal_spec(*object, *pos),
{
    match object {
        Object::Sphere(sphere) => pos.subtract(&sphere.point).unit(),
        Object::Plane(plane) => plane.normal.unit(),
    }
}

/// Scans the objects in order and keeps the nearest valid hit; of several
/// at the same distance, the first.
pub fn intersect_scene<'a>(ray: &Ray, scene: &'a Scene) -> (r: (Option<Scalar>, Option<&'a Object>))
    ensures
        r.0 == intersect_scene_spec(*ray, scene@).0,
        match r.1 {
            Some(object) => intersect_scene_spec(*ray, scene@).1 == Some(*object),
            None => intersect_scene_spec(*ray, scene@).1 is None,
        },
        r.0 is Some <==> r.1 is Some,
        r.0 matches Some(d) ==> d.gt_spec(threshold()),
        r.0 is None <==> forall|j: int|
            0 <= j < scene@.objects.len() ==> !is_valid(#[trigger] hits(*ray, scene@.objects)[j]),
        nearest(hits(*ray, scene@.objects)) matches Some(k) ==> is_first_minimum(
            hits(*ray, scene@.objects),
            k,
        ),
{
    let ghost candidates = hits(*ray, scene@.objects);
    let mut closest: (Option<Scalar>, Option<&'a Object>) = (None, None);
    let mut i: usize = 0;
    while i < scene.objects.len()
        invariant
            i <= scene.objects.len(),
            candidates == hits(*ray, scene@.objects),
            match nearest(candidates.take(i as int)) {
                Some(k) => 0 <= k < i && closest.0 == candidates[k] && closest.1 == Some(
                    &scene.objects[k],
                ),
                None => closest.0 is None && closest.1 is None,
            },
        decreases scene.objects.len() - i,
    {
        let object = &scene.objects[i];
        let distance = object_intersection(object, ray);
        proof {
            let seen = candidates.take(i + 1);
            assert(seen.drop_last() == candidates.take(i as int));
            assert(seen.last() == distance);
        }
        if closer(&distance, &closest.0) {
            closest = (distance, Some(object));
        }
        i += 1;
    }
    proof {
        assert(candidates.take(i as int) == candidates);
        lemma_nearest_is_first_minimum(candidates);
        lemma_hit_beyond_threshold(*ray, scene@);
    }
    closest
}

} // verus!
