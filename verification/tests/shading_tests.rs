use ray::intersect::Ray;
use ray::scalar::Scalar;
use ray::scene::{Camera, Object, Plane, Scene, Sphere};
use ray::shading::{
    checker_axes, is_light_visible, lambert_total, min, parity, plane_color_at, surface, trace,
};
use ray::vector::Vector;

fn s(x: f32) -> Scalar {
    Scalar::from_bits(x.to_bits())
}

fn f(x: Scalar) -> f32 {
    f32::from_bits(x.to_bits())
}

fn v(x: f32, y: f32, z: f32) -> Vector {
    Vector::new(s(x), s(y), s(z))
}

fn parts(a: &Vector) -> [f32; 3] {
    [f(a.x), f(a.y), f(a.z)]
}

fn ball(center: Vector, radius: f32, color: Vector, coefficients: [f32; 3]) -> Object {
    Object::Sphere(Sphere {
        point: center,
        color,
        specular: s(coefficients[0]),
        lambert: s(coefficients[1]),
        ambient: s(coefficients[2]),
        radius: s(radius),
    })
}

fn flat(point: Vector, normal: Vector) -> Plane {
    Plane {
        point,
        color: v(9.0, 9.0, 9.0),
        normal,
        specular: s(0.0),
        lambert: s(0.0),
        ambient: s(1.0),
    }
}

fn scene(objects: Vec<Object>, lights: Vec<Vector>) -> Scene {
    Scene {
        camera: Camera { point: v(0.0, 0.0, 0.0), vector: v(0.0, 0.0, -1.0), fov: s(90.0) },
        objects,
        lights,
        checker: vec![v(10.0, 20.0, 30.0), v(200.0, 210.0, 220.0)],
    }
}

const FIRST: [f32; 3] = [10.0, 20.0, 30.0];
const SECOND: [f32; 3] = [200.0, 210.0, 220.0];

#[test]
fn min_picks_the_smaller() {
    assert_eq!(f(min(s(0.5), s(1.0))), 0.5);
    assert_eq!(f(min(s(2.0), s(1.0))), 1.0);
    assert_eq!(f(min(s(1.0), s(1.0))), 1.0);
    assert_eq!(f(min(s(-3.0), s(1.0))), -3.0);
    assert!(f(min(s(f32::NAN), s(1.0))).is_nan());
    assert_eq!(f(min(s(0.25), s(f32::NAN))), 0.25);
}

#[test]
fn parity_splits_each_cell_in_two() {
    assert!(parity(s(0.5)));
    assert!(!parity(s(1.0)));
    assert!(!parity(s(1.5)));
    assert!(parity(s(2.0)));
    assert!(parity(s(2.5)));
    assert!(!parity(s(3.5)));
    assert!(!parity(s(0.0)));
    assert!(!parity(s(-0.5)));
    assert!(!parity(s(-1.0)));
    assert!(parity(s(-1.5)));
    assert!(!parity(s(-2.0)));
    assert!(!parity(s(-2.5)));
    assert!(parity(s(-3.5)));
    assert!(!parity(s(f32::NAN)));
}

#[test]
fn checker_alternates_between_neighbouring_cells() {
    let world = scene(vec![], vec![]);
    let floor = flat(v(0.0, 0.0, 0.0), v(0.0, 1.0, 0.0));
    let here = plane_color_at(&v(0.5, 0.0, 0.5), &floor, &world);
    let along_x = plane_color_at(&v(1.5, 0.0, 0.5), &floor, &world);
    let along_z = plane_color_at(&v(0.5, 0.0, 1.5), &floor, &world);
    let diagonal = plane_color_at(&v(1.5, 0.0, 1.5), &floor, &world);
    assert_eq!(parts(&here), SECOND);
    assert_eq!(parts(&along_x), FIRST);
    assert_eq!(parts(&along_z), FIRST);
    assert_eq!(parts(&diagonal), SECOND);
}

#[test]
fn checker_repeats_after_a_full_cell_width() {
    let world = scene(vec![], vec![]);
    let floor = flat(v(0.0, 0.0, 0.0), v(0.0, 1.0, 0.0));
    for (x, z) in [(0.5f32, 0.5f32), (1.5, 0.5), (0.25, 1.75), (1.25, 1.25)] {
        let here = plane_color_at(&v(x, 0.0, z), &floor, &world);
        let shifted_x = plane_color_at(&v(x + 2.0, 0.0, z), &floor, &world);
        let shifted_z = plane_color_at(&v(x, 0.0, z + 2.0), &floor, &world);
        assert_eq!(parts(&here), parts(&shifted_x));
        assert_eq!(parts(&here), parts(&shifted_z));
    }
}

#[test]
fn points_of_one_cell_share_a_colour() {
    let world = scene(vec![], vec![]);
    let floor = flat(v(0.0, 0.0, 0.0), v(0.0, 1.0, 0.0));
    let a = plane_color_at(&v(0.1, 0.0, 0.2), &floor, &world);
    let b = plane_color_at(&v(0.9, 0.0, 0.7), &floor, &world);
    assert_eq!(parts(&a), parts(&b));
    let c = plane_color_at(&v(1.1, 0.0, 0.2), &floor, &world);
    let d = plane_color_at(&v(1.9, 0.0, 0.9), &floor, &world);
    assert_eq!(parts(&c), parts(&d));
    assert_ne!(parts(&a), parts(&c));
}

#[test]
fn checker_is_measured_from_the_plane_point() {
    let world = scene(vec![], vec![]);
    let floor = flat(v(1.0, 0.0, 0.0), v(0.0, 1.0, 0.0));
    assert_eq!(parts(&plane_color_at(&v(1.5, 0.0, 0.5), &floor, &world)), SECOND);
    assert_eq!(parts(&plane_color_at(&v(0.5, 0.0, 0.5), &floor, &world)), FIRST);
    assert_eq!(parts(&plane_color_at(&v(-0.5, 0.0, 0.5), &floor, &world)), SECOND);
}

#[test]
fn checker_axes_for_each_kind_of_normal() {
    let (a, b) = checker_axes(&v(0.0, 1.0, 0.0));
    assert_eq!((parts(&a), parts(&b)), ([0.0, 0.0, 1.0], [1.0, 0.0, 0.0]));
    let (a, b) = checker_axes(&v(0.0, -3.0, 2.0));
    assert_eq!((parts(&a), parts(&b)), ([0.0, 0.0, 1.0], [1.0, 0.0, 0.0]));
    let (a, b) = checker_axes(&v(0.0, 0.0, 1.0));
    assert_eq!((parts(&a), parts(&b)), ([0.0, 1.0, 0.0], [1.0, 0.0, 1.0]));
    let (a, b) = checker_axes(&v(1.0, 0.0, 0.0));
    assert_eq!((parts(&a), parts(&b)), ([0.0, 1.0, 0.0], [0.0, 0.0, 1.0]));
    let (a, b) = checker_axes(&v(1.0, -0.0, 0.0));
    assert_eq!((parts(&a), parts(&b)), ([0.0, 1.0, 0.0], [0.0, 0.0, 1.0]));
    let (a, b) = checker_axes(&v(1.0, f32::NAN, 0.0));
    assert_eq!((parts(&a), parts(&b)), ([0.0, 0.0, 1.0], [1.0, 0.0, 0.0]));
}

#[test]
fn checker_basis_follows_the_normal() {
    let world = scene(vec![], vec![]);
    let wall_z = flat(v(0.0, 0.0, 0.0), v(0.0, 0.0, 1.0));
    assert_eq!(parts(&plane_color_at(&v(0.5, 0.5, 0.0), &wall_z, &world)), SECOND);
    assert_eq!(parts(&plane_color_at(&v(0.5, 1.5, 0.0), &wall_z, &world)), FIRST);
    assert_eq!(parts(&plane_color_at(&v(0.5, 0.5, 1.0), &wall_z, &world)), FIRST);
    let wall_x = flat(v(0.0, 0.0, 0.0), v(1.0, 0.0, 0.0));
    assert_eq!(parts(&plane_color_at(&v(0.0, 0.5, 0.5), &wall_x, &world)), SECOND);
    assert_eq!(parts(&plane_color_at(&v(7.0, 0.5, 1.5), &wall_x, &world)), FIRST);
    let both = flat(v(0.0, 0.0, 0.0), v(0.0, 1.0, 1.0));
    assert_eq!(parts(&plane_color_at(&v(1.5, 0.0, 0.5), &both, &world)), FIRST);
}

#[test]
fn light_is_visible_in_an_empty_scene() {
    let world = scene(vec![], vec![v(0.0, 10.0, 0.0)]);
    assert!(is_light_visible(&v(0.0, 0.0, 0.0), &world, &v(0.0, 10.0, 0.0)));
}

#[test]
fn sphere_between_point_and_light_casts_a_shadow() {
    let light = v(0.0, 10.0, 0.0);
    let point = v(0.0, 0.0, 0.0);
    let up = v(0.0, 1.0, 0.0);
    let colour = v(1.0, 1.0, 1.0);

    let open = scene(vec![], vec![light]);
    assert!(is_light_visible(&point, &open, &light));
    assert_eq!(f(lambert_total(&point, &up, &open)), 1.0);

    let blocked = scene(vec![ball(v(0.0, 5.0, 0.0), 1.0, colour, [0.0, 0.0, 1.0])], vec![light]);
    assert!(!is_light_visible(&point, &blocked, &light));
    assert_eq!(f(lambert_total(&point, &up, &blocked)), 0.0);

    let open_again = scene(vec![], vec![light]);
    assert!(f(lambert_total(&point, &up, &open_again)) > 0.0);
}

#[test]
fn occluder_beyond_the_light_casts_no_shadow() {
    let light = v(0.0, 10.0, 0.0);
    let world =
        scene(vec![ball(v(0.0, 20.0, 0.0), 1.0, v(1.0, 1.0, 1.0), [0.0, 0.0, 1.0])], vec![light]);
    assert!(is_light_visible(&v(0.0, 0.0, 0.0), &world, &light));
}

#[test]
fn occluder_at_the_distance_of_the_light_casts_no_shadow() {
    let light = v(0.0, 10.0, 0.0);
    let world =
        scene(vec![ball(v(0.0, 11.0, 0.0), 1.0, v(1.0, 1.0, 1.0), [0.0, 0.0, 1.0])], vec![light]);
    assert!(is_light_visible(&v(0.0, 0.0, 0.0), &world, &light));
}

#[test]
fn shadowed_surface_keeps_only_its_ambient_colour() {
    let light = v(0.0, 10.0, 0.0);
    let target = ball(v(0.0, -1.0, 0.0), 1.0, v(100.0, 50.0, 10.0), [0.0, 0.5, 0.25]);
    let shade = ball(v(0.0, 5.0, 0.0), 1.0, v(1.0, 1.0, 1.0), [0.0, 0.0, 1.0]);
    let incoming = Ray { point: v(0.0, 3.0, 0.0), vector: v(0.0, -1.0, 0.0) };
    let point = v(0.0, 0.0, 0.0);
    let up = v(0.0, 1.0, 0.0);

    let lit = scene(vec![target], vec![light]);
    let lit_colour = surface(&incoming, &lit, &target, &point, &up, 0);
    assert_eq!(parts(&lit_colour), [75.0, 37.5, 7.5]);

    let dark = scene(vec![target, shade], vec![light]);
    let dark_colour = surface(&incoming, &dark, &target, &point, &up, 0);
    assert_eq!(parts(&dark_colour), [25.0, 12.5, 2.5]);
}

#[test]
fn light_behind_the_surface_adds_nothing() {
    let world = scene(vec![], vec![v(0.0, 10.0, 0.0)]);
    assert_eq!(f(lambert_total(&v(0.0, 0.0, 0.0), &v(0.0, -1.0, 0.0), &world)), 0.0);
}

#[test]
fn diffuse_light_saturates_at_one() {
    let lights = vec![v(0.0, 10.0, 0.0), v(0.0, 20.0, 0.0), v(0.0, 30.0, 0.0)];
    let target = ball(v(0.0, -1.0, 0.0), 1.0, v(100.0, 50.0, 10.0), [0.0, 1.0, 0.0]);
    let world = scene(vec![target], lights);
    let point = v(0.0, 0.0, 0.0);
    let up = v(0.0, 1.0, 0.0);
    assert_eq!(f(lambert_total(&point, &up, &world)), 3.0);
    let incoming = Ray { point: v(0.0, 3.0, 0.0), vector: v(0.0, -1.0, 0.0) };
    let colour = surface(&incoming, &world, &target, &point, &up, 0);
    assert_eq!(parts(&colour), [100.0, 50.0, 10.0]);
}

#[test]
fn surface_without_diffuse_coefficient_ignores_the_lights() {
    let target = ball(v(0.0, -1.0, 0.0), 1.0, v(100.0, 50.0, 10.0), [0.0, 0.0, 0.5]);
    let world = scene(vec![target], vec![v(0.0, 10.0, 0.0)]);
    let incoming = Ray { point: v(0.0, 3.0, 0.0), vector: v(0.0, -1.0, 0.0) };
    let colour = surface(&incoming, &world, &target, &v(0.0, 0.0, 0.0), &v(0.0, 1.0, 0.0), 0);
    assert_eq!(parts(&colour), [50.0, 25.0, 5.0]);
}

#[test]
fn colours_are_not_clamped() {
    let target = ball(v(0.0, -1.0, 0.0), 1.0, v(255.0, 128.0, -4.0), [0.0, 0.0, 2.0]);
    let world = scene(vec![target], vec![]);
    let incoming = Ray { point: v(0.0, 3.0, 0.0), vector: v(0.0, -1.0, 0.0) };
    let colour = surface(&incoming, &world, &target, &v(0.0, 0.0, 0.0), &v(0.0, 1.0, 0.0), 0);
    assert_eq!(parts(&colour), [510.0, 256.0, -8.0]);
}

#[test]
fn ray_into_the_void_sees_black() {
    let world = scene(vec![], vec![v(0.0, 10.0, 0.0)]);
    let looking = Ray { point: v(0.0, 0.0, 0.0), vector: v(0.0, 0.0, -1.0) };
    assert_eq!(trace(&looking, &world, 0).map(|c| parts(&c)), Some([0.0, 0.0, 0.0]));
}

#[test]
fn trace_beyond_the_depth_bound_gives_nothing() {
    let world = scene(vec![ball(v(0.0, 0.0, -5.0), 1.0, v(1.0, 0.0, 0.0), [1.0, 0.0, 1.0])], vec![]);
    let looking = Ray { point: v(0.0, 0.0, 0.0), vector: v(0.0, 0.0, -1.0) };
    assert!(trace(&looking, &world, 0).is_some());
    assert!(trace(&looking, &world, 1).is_some());
    assert!(trace(&looking, &world, 2).is_some());
    assert!(trace(&looking, &world, 3).is_none());
    assert!(trace(&looking, &world, 4).is_none());
    assert!(trace(&looking, &world, usize::MAX).is_none());
}

#[test]
fn facing_mirrors_stop_after_two_bounces() {
    let red = ball(v(0.0, 0.0, -5.0), 1.0, v(1.0, 0.0, 0.0), [1.0, 0.0, 1.0]);
    let green = ball(v(0.0, 0.0, 5.0), 1.0, v(0.0, 1.0, 0.0), [1.0, 0.0, 1.0]);
    let world = scene(vec![red, green], vec![]);
    let looking = Ray { point: v(0.0, 0.0, 0.0), vector: v(0.0, 0.0, -1.0) };
    assert_eq!(trace(&looking, &world, 0).map(|c| parts(&c)), Some([2.0, 1.0, 0.0]));
    assert_eq!(trace(&looking, &world, 1).map(|c| parts(&c)), Some([1.0, 1.0, 0.0]));
    assert_eq!(trace(&looking, &world, 2).map(|c| parts(&c)), Some([1.0, 0.0, 0.0]));
}

#[test]
fn pure_mirrors_give_a_finite_colour() {
    let one = ball(v(0.0, 0.0, -5.0), 1.0, v(255.0, 255.0, 255.0), [1.0, 0.0, 0.0]);
    let other = ball(v(0.0, 0.0, 5.0), 1.0, v(255.0, 255.0, 255.0), [1.0, 0.0, 0.0]);
    let world = scene(vec![one, other], vec![v(3.0, 3.0, 0.0)]);
    let looking = Ray { point: v(0.0, 0.0, 0.0), vector: v(0.0, 0.0, -1.0) };
    let colour = trace(&looking, &world, 0).map(|c| parts(&c));
    assert_eq!(colour, Some([0.0, 0.0, 0.0]));
}

#[test]
fn surface_at_the_last_depth_has_no_mirror_image() {
    let red = ball(v(0.0, 0.0, -5.0), 1.0, v(1.0, 0.0, 0.0), [1.0, 0.0, 1.0]);
    let green = ball(v(0.0, 0.0, 5.0), 1.0, v(0.0, 1.0, 0.0), [1.0, 0.0, 1.0]);
    let world = scene(vec![red, green], vec![]);
    let incoming = Ray { point: v(0.0, 0.0, 0.0), vector: v(0.0, 0.0, -1.0) };
    let point = v(0.0, 0.0, -4.0);
    let towards_eye = v(0.0, 0.0, 1.0);
    let last = surface(&incoming, &world, &red, &point, &towards_eye, 2);
    assert_eq!(parts(&last), [1.0, 0.0, 0.0]);
    let deeper = surface(&incoming, &world, &red, &point, &towards_eye, 7);
    assert_eq!(parts(&deeper), [1.0, 0.0, 0.0]);
    let before = surface(&incoming, &world, &red, &point, &towards_eye, 1);
    assert_eq!(parts(&before), [1.0, 1.0, 0.0]);
}

#[test]
fn mirror_image_is_scaled_by_the_specular_coefficient() {
    let mirror = ball(v(0.0, 0.0, -5.0), 1.0, v(0.0, 0.0, 0.0), [0.5, 0.0, 0.0]);
    let lamp = ball(v(0.0, 0.0, 5.0), 1.0, v(40.0, 80.0, 120.0), [0.0, 0.0, 1.0]);
    let world = scene(vec![mirror, lamp], vec![]);
    let looking = Ray { point: v(0.0, 0.0, 0.0), vector: v(0.0, 0.0, -1.0) };
    assert_eq!(trace(&looking, &world, 0).map(|c| parts(&c)), Some([20.0, 40.0, 60.0]));
}
