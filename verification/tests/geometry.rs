use raytracer::fixed::{Fx, FX_SCALE, I64_MAX, I64_MIN};
use raytracer::ray::Glint;
use raytracer::material::{Lambertian, Material};
use raytracer::ray::Ray;
use raytracer::sphere::{shine, Sphere};
use raytracer::vec3::Vec3;

fn fx(raw: i64) -> Fx {
    Fx { raw }
}

fn v(x: i64, y: i64, z: i64) -> Vec3 {
    Vec3 { x: fx(x), y: fx(y), z: fx(z) }
}

fn grey() -> Material {
    Lambertian::new(v(32768, 32768, 32768)).mat_ptr()
}

fn static_sphere(center: Vec3, radius: i64) -> Sphere {
    Sphere {
        center_start: center,
        center_end: center,
        radius: fx(radius),
        material: grey(),
        t_start: fx(0),
        t_end: fx(FX_SCALE),
    }
}

const ONE: i64 = FX_SCALE;

#[test]
fn vector_algebra_basics() {
    let a = v(ONE, 2 * ONE, 3 * ONE);
    let b = v(4 * ONE, 5 * ONE, 6 * ONE);
    assert_eq!(a.add(b), v(5 * ONE, 7 * ONE, 9 * ONE));
    assert_eq!(b.sub(a), v(3 * ONE, 3 * ONE, 3 * ONE));
    assert_eq!(a.dot(b), fx(32 * ONE));
    assert_eq!(a.cross(b), v(-3 * ONE, 6 * ONE, -3 * ONE));
    assert_eq!(a.scale(fx(2 * ONE)), v(2 * ONE, 4 * ONE, 6 * ONE));
    assert_eq!(v(3 * ONE, 4 * ONE, 0).length(), fx(5 * ONE));
    assert_eq!(v(0, 3 * ONE, 0).normalize(), v(0, ONE, 0));
}

#[test]
fn ray_at_walks_the_ray() {
    let r = Ray::new(v(ONE, 0, 0), v(0, 0, -ONE), fx(0));
    assert_eq!(r.at(fx(32768)), v(ONE, 0, -32768));
    assert_eq!(*r.origin(), v(ONE, 0, 0));
    assert_eq!(*r.direction(), v(0, 0, -ONE));
    assert_eq!(r.time(), fx(0));
}

#[test]
fn unit_sphere_centre_ray_hit() {
    // A unit-diameter sphere at (0,0,-1), ray from the origin down -z:
    // hit at t = 0.5, point (0,0,-0.5), normal (0,0,1), front-facing.
    let sp = static_sphere(v(0, 0, -ONE), 32768);
    let r = Ray::new(v(0, 0, 0), v(0, 0, -ONE), fx(0));
    let g = sp.shine(&r, fx(0), fx(I64_MAX)).unwrap();
    assert_eq!(g.t, fx(32768));
    assert_eq!(g.p, v(0, 0, -32768));
    assert_eq!(g.normal, v(0, 0, ONE));
    assert!(g.front_facing);
}

#[test]
fn hit_point_lies_on_the_ray() {
    let sp = static_sphere(v(0, 0, -ONE), 32768);
    let r = Ray::new(v(0, 0, 0), v(0, 0, -ONE), fx(0));
    let g = sp.shine(&r, fx(0), fx(I64_MAX)).unwrap();
    assert_eq!(g.p, r.at(g.t));
}

#[test]
fn hit_normal_is_unit_length_here() {
    let sp = static_sphere(v(0, 0, -ONE), 32768);
    let r = Ray::new(v(0, 0, 0), v(0, 0, -ONE), fx(0));
    let g = sp.shine(&r, fx(0), fx(I64_MAX)).unwrap();
    assert_eq!(g.normal.square_length(), fx(ONE));
}

#[test]
fn interval_beyond_entry_reports_the_exit_back_face() {
    // Starting the interval past the entry root accepts the exit root,
    // where the ray leaves the sphere: not front-facing, and the stored
    // normal still faces the incoming ray.
    let sp = static_sphere(v(0, 0, -ONE), 32768);
    let r = Ray::new(v(0, 0, 0), v(0, 0, -ONE), fx(0));
    let g = sp.shine(&r, fx(49152), fx(I64_MAX)).unwrap();
    assert_eq!(g.t, fx(98304));
    assert!(!g.front_facing);
    assert_eq!(g.normal, v(0, 0, ONE));
}

#[test]
fn negative_radius_flips_the_normal() {
    let sp = static_sphere(v(0, 0, -ONE), -32768);
    let r = Ray::new(v(0, 0, 0), v(0, 0, -ONE), fx(0));
    let g = sp.shine(&r, fx(0), fx(I64_MAX)).unwrap();
    assert_eq!(g.t, fx(32768));
    assert!(!g.front_facing);
    assert_eq!(g.normal, v(0, 0, ONE));
}

#[test]
fn miss_reports_nothing() {
    let sp = static_sphere(v(0, 0, -ONE), 32768);
    let r = Ray::new(v(0, 0, 0), v(0, ONE, 0), fx(0));
    assert!(sp.shine(&r, fx(0), fx(I64_MAX)).is_none());
}

#[test]
fn moving_sphere_interpolates_its_centre() {
    let sp = Sphere {
        center_start: v(0, 0, 0),
        center_end: v(2 * ONE, 0, 0),
        radius: fx(32768),
        material: grey(),
        t_start: fx(0),
        t_end: fx(ONE),
    };
    assert_eq!(sp.center(fx(0)), v(0, 0, 0));
    assert_eq!(sp.center(fx(32768)), v(ONE, 0, 0));
    assert_eq!(sp.center(fx(ONE)), v(2 * ONE, 0, 0));
}

#[test]
fn scene_returns_the_nearest_hit_whatever_the_order() {
    let near = static_sphere(v(0, 0, -ONE), 16384);
    let far = static_sphere(v(0, 0, -3 * ONE), 16384);
    let r = Ray::new(v(0, 0, 0), v(0, 0, -ONE), fx(0));

    let world_a = vec![near, far];
    let world_b = vec![far, near];
    let ga = shine(&world_a, &r, fx(0), fx(I64_MAX)).unwrap();
    let gb = shine(&world_b, &r, fx(0), fx(I64_MAX)).unwrap();
    assert_eq!(ga, gb);
    assert_eq!(ga.t, fx(49152));
}

#[test]
fn scene_query_is_idempotent() {
    let world = vec![
        static_sphere(v(0, 0, -ONE), 32768),
        static_sphere(v(0, -1000 * ONE, 0), 999 * ONE),
    ];
    let r = Ray::new(v(0, 0, 0), v(655, -655, -ONE), fx(0));
    let first = shine(&world, &r, fx(655), fx(I64_MAX));
    let second = shine(&world, &r, fx(655), fx(I64_MAX));
    assert_eq!(first, second);
}

#[test]
fn face_normal_opposes_the_ray_even_at_saturation_extremes() {
    // Saturating negation loses one unit at the representation's lower
    // extreme, so here neither the outward normal nor its negation
    // opposes the ray (the flipped normal's dot comes out +1); the
    // guard stores the zero normal, keeping the orientation invariant.
    let ray = Ray::new(v(0, 0, 0), v(-3, -422212465065984, 0), fx(0));
    let outward = Vec3 { x: fx(I64_MIN), y: fx(FX_SCALE), z: fx(0) };
    assert_eq!(ray.direction().dot(outward).raw, 0);
    assert_eq!(ray.direction().dot(outward.neg()).raw, 1);
    let mut glint = Glint::new(v(0, 0, 0), fx(0), grey());
    glint.set_face_normal(&ray, outward);
    assert!(!glint.front_facing);
    assert_eq!(glint.normal, v(0, 0, 0));
    assert!(ray.direction().dot(glint.normal).raw <= 0);
}

#[test]
fn face_normal_flips_for_back_faces() {
    // the ordinary back-face case: the negated outward normal opposes
    // the ray and is stored
    let ray = Ray::new(v(0, 0, 0), v(0, 0, -ONE), fx(0));
    let mut glint = Glint::new(v(0, 0, -32768), fx(32768), grey());
    glint.set_face_normal(&ray, v(0, 0, -ONE));
    assert!(!glint.front_facing);
    assert_eq!(glint.normal, v(0, 0, ONE));
    assert!(ray.direction().dot(glint.normal).raw <= 0);
}

#[test]
fn zero_radius_sphere_stays_total() {
    // malformed scene data: the arithmetic saturates instead of
    // faulting, and the answer is still a defined value
    let sp = static_sphere(v(0, 0, -ONE), 0);
    let r = Ray::new(v(0, 0, 0), v(0, 0, -ONE), fx(0));
    let g = sp.shine(&r, fx(0), fx(I64_MAX)).unwrap();
    assert_eq!(g.t, fx(ONE));
    assert_eq!(g.normal, v(0, 0, 0));
    assert!(!g.front_facing);
}

#[test]
fn empty_scene_never_hits() {
    let world: Vec<Sphere> = vec![];
    let r = Ray::new(v(0, 0, 0), v(0, 0, -ONE), fx(0));
    assert!(shine(&world, &r, fx(0), fx(I64_MAX)).is_none());
}
