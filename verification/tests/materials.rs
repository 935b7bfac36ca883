use raytracer::fixed::{Fx, FX_SCALE};
use raytracer::material::{reflect, reflectance, Dialectric, Lambertian, Material, Metal};
use raytracer::ray::{Glint, Ray};
use raytracer::rng::Prng;
use raytracer::vec3::Vec3;

fn fx(raw: i64) -> Fx {
    Fx { raw }
}

fn v(x: i64, y: i64, z: i64) -> Vec3 {
    Vec3 { x: fx(x), y: fx(y), z: fx(z) }
}

const ONE: i64 = FX_SCALE;

/// A front-facing hit on the unit-diameter sphere at (0,0,-1), straight
/// down -z from the origin.
fn head_on_glint(material: Material) -> (Ray, Glint) {
    let ray = Ray::new(v(0, 0, 0), v(0, 0, -ONE), fx(0));
    let glint = Glint {
        p: v(0, 0, -32768),
        normal: v(0, 0, ONE),
        material,
        t: fx(32768),
        front_facing: true,
    };
    (ray, glint)
}

#[test]
fn lambertian_attenuates_by_its_albedo() {
    let albedo = v(32768, 45875, 6553);
    let m = Lambertian::new(albedo).mat_ptr();
    let (ray, glint) = head_on_glint(m);
    let mut rng = Prng { s: 11 };
    let sc = m.scatter(&ray, &glint, &mut rng).unwrap();
    assert_eq!(sc.attenuation, albedo);
    // energy bound: no channel exceeds one
    assert!(sc.attenuation.x.raw <= ONE);
    assert!(sc.attenuation.y.raw <= ONE);
    assert!(sc.attenuation.z.raw <= ONE);
    // the scattered ray starts at the hit point, at the same time
    assert_eq!(*sc.ray.origin(), glint.p);
    assert_eq!(sc.ray.time(), ray.time());
}

#[test]
fn metal_attenuates_by_its_albedo_and_keeps_the_bound() {
    let albedo = v(45875, 39321, 32768);
    let m = Metal::new(albedo, fx(0)).mat_ptr();
    let (ray, glint) = head_on_glint(m);
    let mut rng = Prng { s: 5 };
    let sc = m.scatter(&ray, &glint, &mut rng).unwrap();
    assert_eq!(sc.attenuation, albedo);
    assert!(sc.attenuation.x.raw <= ONE);
    assert!(sc.attenuation.y.raw <= ONE);
    assert!(sc.attenuation.z.raw <= ONE);
    // with zero fuzz the head-on reflection is exactly the reverse direction
    assert_eq!(*sc.ray.direction(), v(0, 0, ONE));
}

#[test]
fn metal_absorbs_when_the_reflection_points_inward() {
    let m = Metal::new(v(ONE, ONE, ONE), fx(0)).mat_ptr();
    // a ray leaving the surface along the normal: its reflection points
    // into the surface, which metal treats as absorption
    let ray = Ray::new(v(0, 0, 0), v(0, 0, ONE), fx(0));
    let glint = Glint {
        p: v(0, 0, -32768),
        normal: v(0, 0, ONE),
        material: m,
        t: fx(32768),
        front_facing: true,
    };
    let mut rng = Prng { s: 5 };
    assert!(m.scatter(&ray, &glint, &mut rng).is_none());
}

#[test]
fn metal_fuzz_is_clamped_at_construction() {
    assert_eq!(Metal::new(v(ONE, ONE, ONE), fx(3 * ONE)).fuzz, fx(ONE));
    assert_eq!(Metal::new(v(ONE, ONE, ONE), fx(-5)).fuzz, fx(0));
    assert_eq!(Metal::new(v(ONE, ONE, ONE), fx(123)).fuzz, fx(123));
}

#[test]
fn reflect_mirrors_about_the_normal() {
    // d - 2 (d.n) n  for d = (1,-1,0)/|.|-free check with exact values
    let d = v(ONE, -ONE, 0);
    let n = v(0, ONE, 0);
    assert_eq!(reflect(&d, &n), v(ONE, ONE, 0));
}

#[test]
fn schlick_at_normal_incidence_is_exactly_r0() {
    // index 1.5, front face: ratio = 1/1.5; at cos = 1 the polynomial
    // term vanishes and the reflectance equals r0 exactly
    let one = fx(ONE);
    let ratio = one.div(fx(98304));
    assert_eq!(ratio, fx(43690));
    let r = reflectance(one, ratio);
    let r0b = one.sub(ratio).div(one.add(ratio));
    let r0 = r0b.mul(r0b);
    assert_eq!(r, r0);
    assert_eq!(r, fx(2621));
}

#[test]
fn dielectric_normal_incidence_never_internally_reflects() {
    // sin(theta) is exactly 0 at normal incidence, so the angle test
    // ratio*sin > 1 cannot force a reflection
    let one = fx(ONE);
    let ratio = one.div(fx(98304));
    let cos = one;
    let sin = one.sub(cos.mul(cos)).sqrt();
    assert_eq!(sin, fx(0));
    assert!(ratio.mul(sin).raw <= ONE);
}

#[test]
fn dielectric_scatters_with_white_attenuation() {
    let m = Dialectric { i_o_r: fx(98304) }.mat_ptr();
    let (ray, glint) = head_on_glint(m);
    let mut rng = Prng { s: 99 };
    let sc = m.scatter(&ray, &glint, &mut rng).unwrap();
    assert_eq!(sc.attenuation, v(ONE, ONE, ONE));
    assert_eq!(*sc.ray.origin(), glint.p);
}

#[test]
fn scatter_is_deterministic_per_stream_state() {
    let m = Lambertian::new(v(32768, 32768, 32768)).mat_ptr();
    let (ray, glint) = head_on_glint(m);
    let mut r1 = Prng { s: 1234 };
    let mut r2 = Prng { s: 1234 };
    let a = m.scatter(&ray, &glint, &mut r1);
    let b = m.scatter(&ray, &glint, &mut r2);
    assert_eq!(a, b);
    assert_eq!(r1, r2);
}
