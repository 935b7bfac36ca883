use raytracer::camera::{d2r, tan_fx, Camera, PI_FX};
use raytracer::fixed::{Fx, FX_SCALE};
use raytracer::material::{Dialectric, Lambertian, Metal};
use raytracer::ray::Ray;
use raytracer::render::{
    color, quantize, render_image, render_image_chunked, render_rows, RenderParams,
};
use raytracer::rng::Prng;
use raytracer::sphere::Sphere;
use raytracer::vec3::Vec3;

fn fx(raw: i64) -> Fx {
    Fx { raw }
}

fn v(x: i64, y: i64, z: i64) -> Vec3 {
    Vec3 { x: fx(x), y: fx(y), z: fx(z) }
}

const ONE: i64 = FX_SCALE;

fn static_sphere(center: Vec3, radius: i64, material: raytracer::material::Material) -> Sphere {
    Sphere {
        center_start: center,
        center_end: center,
        radius: fx(radius),
        material,
        t_start: fx(0),
        t_end: fx(ONE),
    }
}

fn small_world() -> Vec<Sphere> {
    vec![
        static_sphere(v(0, -1000 * ONE, 0), 1000 * ONE, Lambertian::new(v(32768, 32768, 32768)).mat_ptr()),
        static_sphere(v(0, ONE, 0), ONE, Dialectric { i_o_r: fx(98304) }.mat_ptr()),
        static_sphere(v(2 * ONE, ONE, 0), ONE, Metal::new(v(45875, 39321, 32768), fx(0)).mat_ptr()),
    ]
}

fn small_camera() -> Camera {
    Camera::new(
        v(13 * ONE, 2 * ONE + 32768, 4 * ONE),
        v(0, 0, 0),
        v(0, ONE, 0),
        fx(20 * ONE),
        fx(116508),  // 16:9
        fx(655),     // aperture 0.01
        fx(14 * ONE),
        fx(0),
        fx(ONE),
    )
}

#[test]
fn depth_zero_is_black_and_draws_nothing() {
    let world = small_world();
    let r = Ray::new(v(0, 0, 0), v(0, 0, -ONE), fx(0));
    let mut rng = Prng { s: 77 };
    let c = color(&r, &world, &mut rng, 0);
    assert_eq!(c, v(0, 0, 0));
    assert_eq!(rng, Prng { s: 77 });
}

#[test]
fn negative_depth_is_black_too() {
    let world = small_world();
    let r = Ray::new(v(0, 0, 0), v(0, 0, -ONE), fx(0));
    let mut rng = Prng { s: 77 };
    assert_eq!(color(&r, &world, &mut rng, -3), v(0, 0, 0));
}

#[test]
fn a_miss_is_exactly_the_background_gradient() {
    // straight up: the unit direction has y = 1, so the gradient
    // parameter is 1 and the colour is the sky colour itself
    let world = small_world();
    let r = Ray::new(v(0, 50 * ONE, 0), v(0, ONE, 0), fx(0));
    let mut rng = Prng { s: 3 };
    let c = color(&r, &world, &mut rng, 50);
    assert_eq!(c, v(32768, 45875, ONE));
    // no scatter was consulted: the stream is untouched
    assert_eq!(rng, Prng { s: 3 });
}

#[test]
fn a_horizontal_miss_is_white() {
    let world: Vec<Sphere> = vec![];
    let r = Ray::new(v(0, 0, 0), v(ONE, 0, 0), fx(0));
    let mut rng = Prng { s: 3 };
    let c = color(&r, &world, &mut rng, 50);
    // t = 0.5: halfway between white and the sky colour
    assert_eq!(c, v(49152, 55705, ONE));
}

#[test]
fn degenerate_directions_stay_inside_the_radiance_bound() {
    // a direction too small to normalise: the unit vector saturates,
    // but the clamped gradient parameter keeps the colour in [0, 1] —
    // here pinned at the full sky colour
    let world: Vec<Sphere> = vec![];
    let r = Ray::new(v(0, 0, 0), v(0, 2, 0), fx(0));
    let mut rng = Prng { s: 1 };
    let c = color(&r, &world, &mut rng, 50);
    assert_eq!(c, v(32768, 45875, ONE));
    for ch in [c.x, c.y, c.z] {
        assert!(0 <= ch.raw && ch.raw <= ONE);
    }
}

#[test]
fn integrator_is_deterministic_per_stream_state() {
    let world = small_world();
    let r = Ray::new(v(4 * ONE, ONE, 4 * ONE), v(-ONE, 0, -ONE), fx(0));
    let mut r1 = Prng { s: 42 };
    let mut r2 = Prng { s: 42 };
    assert_eq!(color(&r, &world, &mut r1, 50), color(&r, &world, &mut r2, 50));
    assert_eq!(r1, r2);
}

#[test]
fn buffer_has_three_bytes_per_pixel() {
    let world = small_world();
    let cam = small_camera();
    let rp = RenderParams { width: 8, height: 6, samples: 2, max_depth: 5, seed: 1 };
    let buf = render_image(&world, &cam, &rp);
    assert_eq!(buf.len(), 8 * 6 * 3);
}

#[test]
fn sequential_and_chunked_renders_are_bit_identical() {
    let world = small_world();
    let cam = small_camera();
    let rp = RenderParams { width: 8, height: 6, samples: 2, max_depth: 5, seed: 20177 };
    let sequential = render_image(&world, &cam, &rp);
    let by_two_rows = render_image_chunked(&world, &cam, &rp, 2);
    let by_odd_chunks = render_image_chunked(&world, &cam, &rp, 4);
    assert_eq!(sequential, by_two_rows);
    assert_eq!(sequential, by_odd_chunks);
}

#[test]
fn hand_stitched_row_blocks_match_the_sequential_render() {
    let world = small_world();
    let cam = small_camera();
    let rp = RenderParams { width: 5, height: 4, samples: 2, max_depth: 4, seed: 9 };
    let sequential = render_image(&world, &cam, &rp);
    let mut stitched = render_rows(&world, &cam, &rp, 0, 1);
    stitched.extend(render_rows(&world, &cam, &rp, 1, 3));
    stitched.extend(render_rows(&world, &cam, &rp, 3, 4));
    assert_eq!(sequential, stitched);
}

#[test]
fn renders_with_the_same_seed_agree() {
    let world = small_world();
    let cam = small_camera();
    let rp = RenderParams { width: 4, height: 3, samples: 3, max_depth: 8, seed: 31337 };
    assert_eq!(render_image(&world, &cam, &rp), render_image(&world, &cam, &rp));
}

#[test]
fn camera_basis_follows_the_view_construction() {
    // eye one unit up the z axis looking at the origin, 90 degree field
    // of view, square aspect, pinhole: every quantity is exact
    let cam = Camera::new(
        v(0, 0, ONE),
        v(0, 0, 0),
        v(0, ONE, 0),
        fx(90 * ONE),
        fx(ONE),
        fx(0),
        fx(ONE),
        fx(0),
        fx(ONE),
    );
    // w = (0,0,1), u = up x w normalised = (1,0,0), v = w x u = (0,1,0):
    // the third basis vector is the plain cross product, not normalised
    assert_eq!(cam.u, v(ONE, 0, 0));
    assert_eq!(cam.v, v(0, ONE, 0));
    // tan(45 degrees) is exactly one, so the viewport is 2 x 2
    assert_eq!(cam.horizontal, v(2 * ONE, 0, 0));
    assert_eq!(cam.vertical, v(0, 2 * ONE, 0));
    assert_eq!(cam.lower_left, v(-ONE, -ONE, 0));
    assert_eq!(cam.lens_radius, fx(0));
}

#[test]
fn camera_rays_are_deterministic_per_stream_state() {
    let cam = small_camera();
    let mut r1 = Prng { s: 8 };
    let mut r2 = Prng { s: 8 };
    let a = cam.get_ray(fx(32768), fx(32768), &mut r1);
    let b = cam.get_ray(fx(32768), fx(32768), &mut r2);
    assert_eq!(a, b);
    assert_eq!(r1, r2);
}

#[test]
fn pixel_streams_are_seeded_per_pixel() {
    let a = Prng::seed_pixel(7, 1, 2);
    let b = Prng::seed_pixel(7, 1, 2);
    let c = Prng::seed_pixel(7, 2, 1);
    assert_eq!(a, b);
    assert_ne!(a, c);
}

#[test]
fn quantize_averages_gamma_corrects_and_truncates() {
    // two samples of one half: averaged to 0.5, gamma-corrected to
    // sqrt(0.5), scaled to the byte 181
    let acc = fx(32768).add(fx(32768));
    let unsat = Fx::one().div(fx(2 * ONE));
    assert_eq!(unsat, fx(32768));
    assert_eq!(quantize(acc, unsat), 181);
    // full white clamps just below one and lands on 255
    let white_acc = fx(2 * ONE);
    assert_eq!(quantize(white_acc, unsat), 255);
    // black stays black
    assert_eq!(quantize(fx(0), unsat), 0);
}

#[test]
fn degrees_to_radians_is_exact_at_half_turn() {
    assert_eq!(d2r(fx(180 * ONE)), fx(PI_FX));
    assert_eq!(d2r(fx(90 * ONE)), fx(102943));
}

#[test]
fn tangent_of_a_quarter_turn_is_one() {
    let eighth = d2r(fx(90 * ONE)).div(fx(2 * ONE));
    assert_eq!(tan_fx(eighth), fx(ONE));
    // ten degrees: within one raw step of the real tangent
    let ten = d2r(fx(20 * ONE)).div(fx(2 * ONE));
    assert_eq!(tan_fx(ten), fx(11555));
}

#[test]
fn unit_draws_stay_in_range() {
    let mut rng = Prng::seed_pixel(123, 4, 5);
    for _ in 0..1000 {
        let u = rng.next_unit();
        assert!(0 <= u.raw && u.raw < ONE);
        let s = rng.next_symmetric();
        assert!(-ONE <= s.raw && s.raw < ONE);
    }
}
