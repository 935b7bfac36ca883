//! The radiance integrator and the row-based renderer.
//!
//! `color` estimates the radiance carried by one ray: intersect, let the
//! material scatter, recurse with a decremented depth budget, multiply
//! attenuations; a miss returns the sky gradient, exhaustion or
//! absorption return black.  The renderer samples every pixel from a
//! stream seeded by the render seed and the pixel's own coordinates, so
//! the buffer is a pure function of scene, camera and parameters: any
//! split of the rows into chunks, rendered in any order and stitched
//! back together, is bit-identical to the sequential render.
use crate::camera::{get_ray_spec, Camera, CameraM};
use crate::fixed::{fadd, fdiv, fmul, fsqrt, fsub, Fx, FX_SCALE, I64_MAX};
use crate::material::scatter_spec;
use crate::ray::{Ray, RayM};
use crate::rng::{pixel_state, prng_out, prng_step, unit_of, Prng};
use crate::sphere::{scene_hit_spec, Sphere};
use crate::vec3::{vadd, vcompmul, vscale, vunit, Vec3, V3};
use vstd::prelude::*;

verus! {

/// The depth budget used for primary rays.
pub const MAX_BOUNCES: i8 = 50;

/// Lower end of every intersection interval: keeps a scattered ray from
/// re-hitting its own surface ("shadow acne"); 0.01 in fixed point.
pub const SHADOW_EPS: i64 = 655;

/// Black: the terminal value for absorption and exhaustion.
pub open spec fn black() -> V3 {
    V3 { x: 0int, y: 0int, z: 0int }
}

/// The background: a vertical gradient from white at the horizon to sky
/// blue at the zenith, keyed by the y of the unit direction.  The
/// gradient parameter is clamped into `[0, 1]`: a degenerate direction
/// (one that normalisation saturates) would otherwise push it out and
/// with it the colour — the usual guard for a numerically degenerate
/// case, and what keeps the radiance bound unconditional.
pub open spec fn background_spec(r: RayM) -> V3 {
    let one = FX_SCALE as int;
    let t0 = fmul(one / 2, fadd(vunit(r.dir).y, one));
    let t = if t0 < 0 {
        0int
    } else if t0 > one {
        one
    } else {
        t0
    };
    vadd(
        vscale(V3 { x: one, y: one, z: one }, fsub(one, t)),
        vscale(V3 { x: one / 2, y: 45875int, z: one }, t),
    )
}

/// The exact behaviour of the integrator `color`, with the stream state
/// it leaves behind.
pub open spec fn color_spec(r: RayM, world: Seq<Sphere>, s: u64, depth: int) -> (V3, u64)
    decreases depth,
{
    if depth < 1 {
        (black(), s)
    } else {
        match scene_hit_spec(world, r, SHADOW_EPS as int, I64_MAX as int) {
            Some(g) => {
                let (sc, s1) = scatter_spec(g.material, r, g, s);
                match sc {
                    Some(scat) => {
                        let (c, s2) = color_spec(scat.ray, world, s1, depth - 1);
                        (vcompmul(scat.attenuation, c), s2)
                    },
                    None => (black(), s1),
                }
            },
            None => (background_spec(r), s),
        }
    }
}

/// Estimate the radiance along `r` with a depth budget.  In a scene
/// whose albedos lie in `[0, 1]` the estimate lies in `[0, 1]` per
/// channel, whatever the ray.
pub fn color(r: &Ray, world: &Vec<Sphere>, rng: &mut Prng, depth: i8) -> (c: Vec3)
    ensures
        (c@, final(rng)@) == color_spec(r@, world@, old(rng)@, depth as int),
        crate::laws::scene_albedo_bounded(world@) ==> {
            &&& 0 <= c@.x <= FX_SCALE as int
            &&& 0 <= c@.y <= FX_SCALE as int
            &&& 0 <= c@.z <= FX_SCALE as int
        },
    decreases depth,
{
    proof {
        if crate::laws::scene_albedo_bounded(world@) {
            crate::laws::lemma_color_bounded(r@, world@, old(rng)@, depth as int);
        }
    }
    if depth < 1 {
        return Vec3::zero();
    }
    if let Some(glint) = crate::sphere::shine(world, r, Fx { raw: SHADOW_EPS }, Fx { raw: I64_MAX }) {
        if let Some(scatter) = glint.material.scatter(r, &glint, rng) {
            scatter.attenuation.component_mul(color(&scatter.ray, world, rng, depth - 1))
        } else {
            Vec3::zero()
        }
    } else {
        let one = Fx { raw: FX_SCALE };
        let unit = r.direction().normalize();
        let t0 = Fx { raw: 32768 }.mul(unit.y.add(one));
        let t = if t0.raw < 0 {
            Fx { raw: 0 }
        } else if t0.raw > FX_SCALE {
            one
        } else {
            t0
        };
        // interpolate between blue at the top and white at the bottom
        let white = Vec3::one();
        let sky = Vec3::new(Fx { raw: 32768 }, Fx { raw: 45875 }, Fx { raw: FX_SCALE });
        white.scale(one.sub(t)).add(sky.scale(t))
    }
}

/// What one render is asked for: image extents, samples per pixel, the
/// bounce budget, and the seed every pixel's stream derives from.
#[derive(Clone, Copy, Debug, PartialEq, Eq, Structural)]
pub struct RenderParams {
    pub width: usize,
    pub height: usize,
    pub samples: u32,
    pub max_depth: i8,
    pub seed: u64,
}

/// The extents the fixed-point pixel arithmetic accommodates.
pub open spec fn wf_params(rp: RenderParams) -> bool {
    &&& 1 <= rp.width <= 4096
    &&& 1 <= rp.height <= 4096
    &&& 1 <= rp.samples <= 65536
}

/// The sampling loop of one pixel: `k` samples drawn from state `s`,
/// each jittering the pixel coordinate, asking the camera for a ray and
/// integrating it, accumulated onto `acc`.
pub open spec fn sample_accum(
    world: Seq<Sphere>,
    cam: CameraM,
    rp: RenderParams,
    x: int,
    y: int,
    k: nat,
    s: u64,
    acc: V3,
) -> (V3, u64)
    decreases k,
{
    if k == 0 {
        (acc, s)
    } else {
        let du = unit_of(prng_out(s));
        let s1 = prng_step(s);
        let dv = unit_of(prng_out(s1));
        let s2 = prng_step(s1);
        let u = fdiv(fadd(x * 65536, du), rp.width as int * 65536);
        let v = fdiv(
            fadd((rp.height as int - 1 - y) * 65536, dv),
            rp.height as int * 65536,
        );
        let (ray, s3) = get_ray_spec(cam, u, v, s2);
        let (c, s4) = color_spec(ray, world, s3, rp.max_depth as int);
        sample_accum(world, cam, rp, x, y, (k - 1) as nat, s4, vadd(acc, c))
    }
}

/// One post-processed channel: average (multiply by the precomputed
/// reciprocal of the sample count), gamma-correct by square root, clamp
/// below one, and quantize to a byte.
pub open spec fn post_one(c: int, unsat: int) -> int {
    let g = fsqrt(fmul(c, unsat));
    let cl = if g < 0 {
        0int
    } else if g > 65535 {
        65535int
    } else {
        g
    };
    cl / 256
}

/// The three bytes of the pixel at column `x`, row `y` from the top.
/// Opaque: the row assembly below needs only that it is a function.
#[verifier::opaque]
pub open spec fn pixel_bytes(
    world: Seq<Sphere>,
    cam: CameraM,
    rp: RenderParams,
    x: int,
    y: int,
) -> (int, int, int) {
    let (col, sfin) = sample_accum(
        world,
        cam,
        rp,
        x,
        y,
        rp.samples as nat,
        pixel_state(rp.seed, x as u64, y as u64),
        black(),
    );
    let unsat = fdiv(FX_SCALE as int, rp.samples as int * FX_SCALE as int);
    (post_one(col.x, unsat), post_one(col.y, unsat), post_one(col.z, unsat))
}

/// Channel `ch` of that pixel.
pub open spec fn pixel_channel(
    world: Seq<Sphere>,
    cam: CameraM,
    rp: RenderParams,
    x: int,
    y: int,
    ch: int,
) -> int {
    let (b0, b1, b2) = pixel_bytes(world, cam, rp, x, y);
    if ch == 0 {
        b0
    } else if ch == 1 {
        b1
    } else {
        b2
    }
}

/// The bytes of one row, red, green, blue per pixel, left to right.
pub open spec fn row_seq(world: Seq<Sphere>, cam: CameraM, rp: RenderParams, y: int) -> Seq<u8> {
    Seq::new((rp.width * 3) as nat, |j: int| pixel_channel(world, cam, rp, j / 3, y, j % 3) as u8)
}

/// The bytes of the rows `[y0, y1)`, top row first.
pub open spec fn rows_seq(
    world: Seq<Sphere>,
    cam: CameraM,
    rp: RenderParams,
    y0: int,
    y1: int,
) -> Seq<u8>
    decreases y1 - y0,
{
    if y0 >= y1 {
        Seq::empty()
    } else {
        row_seq(world, cam, rp, y0) + rows_seq(world, cam, rp, y0 + 1, y1)
    }
}

/// The whole image: `width * height * 3` bytes, row-major, top row
/// first.
pub open spec fn image_seq(world: Seq<Sphere>, cam: CameraM, rp: RenderParams) -> Seq<u8> {
    rows_seq(world, cam, rp, 0, rp.height as int)
}

/// A block of rows has exactly `3 * width` bytes per row.
pub proof fn lemma_rows_seq_len(
    world: Seq<Sphere>,
    cam: CameraM,
    rp: RenderParams,
    y0: int,
    y1: int,
)
    requires
        y0 <= y1,
    ensures
        rows_seq(world, cam, rp, y0, y1).len() == (y1 - y0) * (rp.width * 3),
    decreases y1 - y0,
{
    if y0 < y1 {
        lemma_rows_seq_len(world, cam, rp, y0 + 1, y1);
        assert(row_seq(world, cam, rp, y0).len() == rp.width * 3);
        assert((y1 - y0) * (rp.width * 3) == (rp.width * 3) + (y1 - y0 - 1) * (rp.width * 3))
            by (nonlinear_arith);
    } else {
        assert((y1 - y0) * (rp.width * 3) == 0) by (nonlinear_arith)
            requires
                y0 == y1,
        ;
    }
}

/// Renders of consecutive row chunks assemble, by plain concatenation,
/// into the render of the whole range: the determinism argument for the
/// parallel scheduler.  Together with the exact contract of
/// `render_rows`, a sequential render and any chunked render of the
/// same scene, camera, parameters and seed are bit-identical.
pub proof fn lemma_chunks_concat(
    world: Seq<Sphere>,
    cam: CameraM,
    rp: RenderParams,
    y0: int,
    y1: int,
    y2: int,
)
    requires
        y0 <= y1 <= y2,
    ensures
        rows_seq(world, cam, rp, y0, y2) == rows_seq(world, cam, rp, y0, y1) + rows_seq(
            world,
            cam,
            rp,
            y1,
            y2,
        ),
    decreases y1 - y0,
{
    if y0 == y1 {
        assert(rows_seq(world, cam, rp, y0, y1) + rows_seq(world, cam, rp, y1, y2) =~= rows_seq(
            world,
            cam,
            rp,
            y1,
            y2,
        ));
    } else {
        lemma_chunks_concat(world, cam, rp, y0 + 1, y1, y2);
        assert(row_seq(world, cam, rp, y0) + (rows_seq(world, cam, rp, y0 + 1, y1) + rows_seq(
            world,
            cam,
            rp,
            y1,
            y2,
        )) =~= (row_seq(world, cam, rp, y0) + rows_seq(world, cam, rp, y0 + 1, y1)) + rows_seq(
            world,
            cam,
            rp,
            y1,
            y2,
        ));
    }
}

/// Compute the three bytes of one pixel.
pub fn render_pixel(
    world: &Vec<Sphere>,
    cam: &Camera,
    rp: &RenderParams,
    x: usize,
    y: usize,
) -> (r: (u8, u8, u8))
    requires
        wf_params(*rp),
        x < rp.width,
        y < rp.height,
    ensures
        (r.0 as int, r.1 as int, r.2 as int) == pixel_bytes(world@, cam@, *rp, x as int, y as int),
{
    proof {
        reveal(pixel_bytes);
    }
    let ghost s0 = pixel_state(rp.seed, x as u64, y as u64);
    let ghost total = rp.samples as nat;
    let mut rng = Prng::seed_pixel(rp.seed, x as u64, y as u64);
    let mut acc = Vec3::zero();
    let mut k: u32 = 0;
    let xf = Fx { raw: (x as i64) * 65536 };
    let wf = Fx { raw: (rp.width as i64) * 65536 };
    let yf = Fx { raw: ((rp.height - 1 - y) as i64) * 65536 };
    let hf = Fx { raw: (rp.height as i64) * 65536 };
    while k < rp.samples
        invariant
            wf_params(*rp),
            x < rp.width,
            y < rp.height,
            k <= rp.samples,
            xf@ == (x as int) * 65536,
            wf@ == rp.width as int * 65536,
            yf@ == (rp.height as int - 1 - y) * 65536,
            hf@ == rp.height as int * 65536,
            sample_accum(
                world@,
                cam@,
                *rp,
                x as int,
                y as int,
                (rp.samples - k) as nat,
                rng@,
                acc@,
            ) == sample_accum(world@, cam@, *rp, x as int, y as int, total, s0, black()),
        decreases rp.samples - k,
    {
        let du = rng.next_unit();
        let dv = rng.next_unit();
        let u = xf.add(du).div(wf);
        let v = yf.add(dv).div(hf);
        let ray = cam.get_ray(u, v, &mut rng);
        let c = color(&ray, world, &mut rng, rp.max_depth);
        acc = acc.add(c);
        k = k + 1;
    }
    let unsat = Fx { raw: FX_SCALE }.div(Fx { raw: (rp.samples as i64) * FX_SCALE });
    (quantize(acc.x, unsat), quantize(acc.y, unsat), quantize(acc.z, unsat))
}

/// Average, gamma-correct, clamp and quantize one channel.
pub fn quantize(c: Fx, unsat: Fx) -> (b: u8)
    ensures
        b as int == post_one(c@, unsat@),
{
    let g = c.mul(unsat).sqrt();
    let cl: i64 = if g.raw < 0 {
        0
    } else if g.raw > 65535 {
        65535
    } else {
        g.raw
    };
    ((cl as u64) / 256) as u8
}

/// Render the rows `[y0, y1)` into a fresh buffer, top row first.
pub fn render_rows(
    world: &Vec<Sphere>,
    cam: &Camera,
    rp: &RenderParams,
    y0: usize,
    y1: usize,
) -> (out: Vec<u8>)
    requires
        wf_params(*rp),
        y0 <= y1 <= rp.height,
    ensures
        out@ == rows_seq(world@, cam@, *rp, y0 as int, y1 as int),
        out@.len() == (y1 - y0) * (rp.width * 3),
{
    let mut out: Vec<u8> = Vec::new();
    let mut y: usize = y0;
    while y < y1
        invariant
            wf_params(*rp),
            y0 <= y <= y1 <= rp.height,
            out@ == rows_seq(world@, cam@, *rp, y0 as int, y as int),
        decreases y1 - y,
    {
        let ghost before = out@;
        let mut x: usize = 0;
        while x < rp.width
            invariant
                wf_params(*rp),
                y0 <= y < y1 <= rp.height,
                x <= rp.width,
                out@ == before + row_seq(world@, cam@, *rp, y as int).subrange(0, 3 * x as int),
            decreases rp.width - x,
        {
            let (b0, b1, b2) = render_pixel(world, cam, rp, x, y);
            out.push(b0);
            out.push(b1);
            out.push(b2);
            proof {
                let row = row_seq(world@, cam@, *rp, y as int);
                let xi = x as int;
                assert((3 * xi) / 3 == xi && (3 * xi) % 3 == 0) by (nonlinear_arith);
                assert((3 * xi + 1) / 3 == xi && (3 * xi + 1) % 3 == 1) by (nonlinear_arith);
                assert((3 * xi + 2) / 3 == xi && (3 * xi + 2) % 3 == 2) by (nonlinear_arith);
                assert(before + row.subrange(0, 3 * xi) + seq![b0, b1, b2] =~= before
                    + row.subrange(0, 3 * (xi + 1)));
            }
            x = x + 1;
        }
        proof {
            let row = row_seq(world@, cam@, *rp, y as int);
            assert(row.subrange(0, 3 * rp.width as int) =~= row);
            lemma_chunks_concat(world@, cam@, *rp, y0 as int, y as int, y as int + 1);
            assert(rows_seq(world@, cam@, *rp, y as int + 1, y as int + 1) =~= Seq::<u8>::empty());
            assert(rows_seq(world@, cam@, *rp, y as int, y as int + 1) =~= row);
        }
        y = y + 1;
    }
    proof {
        lemma_rows_seq_len(world@, cam@, *rp, y0 as int, y1 as int);
    }
    out
}

/// Render the whole image sequentially.
pub fn render_image(world: &Vec<Sphere>, cam: &Camera, rp: &RenderParams) -> (out: Vec<u8>)
    requires
        wf_params(*rp),
    ensures
        out@ == image_seq(world@, cam@, *rp),
        out@.len() == rp.height * (rp.width * 3),
{
    render_rows(world, cam, rp, 0, rp.height)
}

/// Render the image in consecutive chunks of `rows_per_chunk` rows and
/// stitch them together: bit-identical to `render_image`, the shape the
/// parallel scheduler relies on.
pub fn render_image_chunked(
    world: &Vec<Sphere>,
    cam: &Camera,
    rp: &RenderParams,
    rows_per_chunk: usize,
) -> (out: Vec<u8>)
    requires
        wf_params(*rp),
        rows_per_chunk >= 1,
    ensures
        out@ == image_seq(world@, cam@, *rp),
{
    let mut out: Vec<u8> = Vec::new();
    let mut y: usize = 0;
    while y < rp.height
        invariant
            wf_params(*rp),
            rows_per_chunk >= 1,
            y <= rp.height,
            out@ == rows_seq(world@, cam@, *rp, 0, y as int),
        decreases rp.height - y,
    {
        let end = if rp.height - y < rows_per_chunk {
            rp.height
        } else {
            y + rows_per_chunk
        };
        let mut chunk = render_rows(world, cam, rp, y, end);
        proof {
            lemma_chunks_concat(world@, cam@, *rp, 0, y as int, end as int);
        }
        out.append(&mut chunk);
        y = end;
    }
    out
}

} // verus!
