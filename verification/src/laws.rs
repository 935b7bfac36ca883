//! The general properties the renderer promises, stated once and proved
//! against the spec-level mirrors that the executable contracts pin.
use crate::fixed::{
    fadd, fmul, fsub, iabs, lemma_fdiv_sign, lemma_fmul_nonneg, lemma_fmul_unit_bounded, FX_SCALE,
    I64_MAX,
};
use crate::material::{scatter_spec, Material};
use crate::ray::{lemma_oriented_normal_opposes, ray_at, GlintM, RayM};
use crate::render::{background_spec, black, color_spec, image_seq, RenderParams, SHADOW_EPS};
use crate::camera::CameraM;
use crate::sphere::{
    center_spec, lemma_scene_hit_nearest, scene_hit_spec, sphere_glint_at, sphere_hit_spec,
    Sphere, SphereM,
};
use crate::vec3::{vadd, vdiv_scalar, vdot, vneg, vscale, vsub, vunit, V3};
use vstd::prelude::*;

verus! {

/// A hit record lies on its ray: the reported point is exactly the ray
/// evaluated at the reported parameter, and the parameter lies in the
/// queried interval.
pub proof fn lemma_hit_point_on_ray(sp: SphereM, r: RayM, t_min: int, t_max: int)
    ensures
        match sphere_hit_spec(sp, r, t_min, t_max) {
            Some(g) => g.p == ray_at(r, g.t) && t_min <= g.t < t_max,
            None => true,
        },
{
}

/// How a hit record's normal and side are formed: the outward normal is
/// the hit point minus the centre, divided by the radius; the record is
/// front-facing exactly when the ray direction points against it; the
/// stored normal is the outward normal, its negation, or — in the
/// saturation corner where neither opposes the ray — zero; and in every
/// case the stored normal's dot with the ray direction is not positive.
/// (That the stored normal has unit length holds only up to fixed-point
/// rounding and is not claimed here.)
pub proof fn lemma_hit_normal_orientation(sp: SphereM, r: RayM, t_min: int, t_max: int)
    ensures
        match sphere_hit_spec(sp, r, t_min, t_max) {
            Some(g) => {
                let outward = vdiv_scalar(vsub(g.p, center_spec(sp, r.time)), sp.radius);
                &&& vdot(r.dir, g.normal) <= 0
                &&& g.front_facing == (vdot(r.dir, outward) < 0)
                &&& (g.front_facing ==> g.normal == outward)
                &&& (!g.front_facing ==> g.normal == vneg(outward) || g.normal == (V3 {
                    x: 0int,
                    y: 0int,
                    z: 0int,
                }))
            },
            None => true,
        },
{
    match sphere_hit_spec(sp, r, t_min, t_max) {
        Some(g) => {
            assert(g == sphere_glint_at(sp, r, g.t));
            let base = GlintM {
                p: ray_at(r, g.t),
                normal: V3 { x: 0int, y: 0int, z: 0int },
                material: sp.material,
                t: g.t,
                front_facing: false,
            };
            let outward = vdiv_scalar(vsub(ray_at(r, g.t), center_spec(sp, r.time)), sp.radius);
            lemma_oriented_normal_opposes(base, r, outward);
        },
        None => {},
    }
}

/// The orientation invariant at the scene level: every hit record the
/// nearest-hit query returns carries a normal whose dot with the ray
/// direction is not positive — the normal faces the incoming ray.
pub proof fn lemma_scene_hit_normal_opposes(s: Seq<Sphere>, r: RayM, t_min: int, t_max: int)
    ensures
        match scene_hit_spec(s, r, t_min, t_max) {
            Some(g) => vdot(r.dir, g.normal) <= 0,
            None => true,
        },
{
    match scene_hit_spec(s, r, t_min, t_max) {
        Some(g) => {
            lemma_scene_hit_nearest(s, r, t_min, t_max);
            let i = choose|i: int|
                0 <= i < s.len() && sphere_hit_spec(s[i]@, r, t_min, t_max) == Some(g);
            lemma_hit_normal_orientation(s[i]@, r, t_min, t_max);
        },
        None => {},
    }
}

/// For a sphere of positive radius, a front-facing hit record's normal
/// does not point toward the centre: its dot with the vector from the
/// centre to the hit point is nonnegative.  (Strict positivity, and the
/// front-facing flag itself for rays from strictly outside, hold of the
/// exact geometry — `lemma_outside_hit_enters` — but survive fixed-point
/// truncation only up to this sign bound.)
pub proof fn lemma_front_hit_normal_points_outward(sp: SphereM, r: RayM, t_min: int, t_max: int)
    requires
        sp.radius > 0,
    ensures
        match sphere_hit_spec(sp, r, t_min, t_max) {
            Some(g) => g.front_facing ==> vdot(
                g.normal,
                vsub(g.p, center_spec(sp, r.time)),
            ) >= 0,
            None => true,
        },
{
    match sphere_hit_spec(sp, r, t_min, t_max) {
        Some(g) => {
            if g.front_facing {
                assert(g == sphere_glint_at(sp, r, g.t));
                let diff = vsub(g.p, center_spec(sp, r.time));
                assert(g.normal == vdiv_scalar(diff, sp.radius));
                lemma_outward_component_nonneg(diff.x, sp.radius);
                lemma_outward_component_nonneg(diff.y, sp.radius);
                lemma_outward_component_nonneg(diff.z, sp.radius);
            }
        },
        None => {},
    }
}

/// One component's share of the outward dot product: a value divided by
/// a positive radius keeps its sign, so the product with the value
/// itself is nonnegative.
proof fn lemma_outward_component_nonneg(x: int, rad: int)
    requires
        rad > 0,
    ensures
        fmul(crate::fixed::fdiv(x, rad), x) >= 0,
{
    lemma_fdiv_sign(x, rad);
    let q = crate::fixed::fdiv(x, rad);
    if x >= 0 {
        assert(q * x >= 0) by (nonlinear_arith)
            requires
                q >= 0,
                x >= 0,
        ;
    } else {
        assert(q * x >= 0) by (nonlinear_arith)
            requires
                q <= 0,
                x <= 0,
        ;
    }
    lemma_fmul_nonneg(q, x);
}

/// The geometry behind the front-face guarantee, in exact integer
/// arithmetic.  For the ray/sphere quadratic `a t^2 + 2 half_b t + c`
/// with `a = |d|^2 > 0`: if the origin is strictly outside (`c > 0`),
/// and the sphere is met ahead of the origin (the far root is not
/// behind: `half_b <= s` for `s` at most the root of the discriminant),
/// then `half_b` is negative and the near root `(-half_b - s) / a` is
/// strictly positive — the first crossing lies ahead, where the ray is
/// entering, so with a positive radius the hit is front-facing.
pub proof fn lemma_outside_hit_enters(a: int, half_b: int, c: int, s: int)
    requires
        a > 0,
        c > 0,
        0 <= s,
        s * s <= half_b * half_b - a * c,
        half_b <= s,
    ensures
        half_b < 0,
        -half_b - s > 0,
{
    assert(a * c > 0) by (nonlinear_arith)
        requires
            a > 0,
            c > 0,
    ;
    assert(s * s < half_b * half_b);
    assert(iabs(half_b) > s) by (nonlinear_arith)
        requires
            s * s < half_b * half_b,
            0 <= s,
    ;
}

/// Dot product in exact (untruncated, unscaled) arithmetic: the
/// idealised geometry the fixed-point computation approximates.
pub open spec fn edot(a: V3, b: V3) -> int {
    a.x * b.x + a.y * b.y + a.z * b.z
}

/// Difference in exact arithmetic.
pub open spec fn esub(a: V3, b: V3) -> V3 {
    V3 { x: a.x - b.x, y: a.y - b.y, z: a.z - b.z }
}

/// The front-face guarantee on the geometry itself, in exact
/// arithmetic.  For a ray with origin `o` and direction `d` against a
/// sphere of positive radius: if the origin lies strictly outside, the
/// sphere is met other than tangentially (`s >= 1` bounds the root of
/// the discriminant from below and `s*s` bounds it from above), and the
/// far crossing is not behind the origin, then the ray heads toward the
/// sphere and its first crossing lies strictly ahead — where the
/// direction meets the surface from outside, so the hit is
/// front-facing and the outward normal points away from the centre.
/// Fixed-point truncation preserves this only outside tangency margins;
/// what survives it unconditionally is `lemma_hit_normal_orientation`
/// and `lemma_front_hit_normal_points_outward`.
pub proof fn lemma_outside_origin_enters_front(o: V3, d: V3, center: V3, rad: int, s: int)
    requires
        rad > 0,
        edot(d, d) > 0,
        edot(esub(o, center), esub(o, center)) > rad * rad,
        1 <= s,
        s * s <= edot(esub(o, center), d) * edot(esub(o, center), d) - edot(d, d) * (edot(
            esub(o, center),
            esub(o, center),
        ) - rad * rad),
        edot(esub(o, center), d) <= s,
    ensures
        edot(esub(o, center), d) < 0,
        -edot(esub(o, center), d) - s > 0,
{
    let oc = esub(o, center);
    lemma_outside_hit_enters(
        edot(d, d),
        edot(oc, d),
        edot(oc, oc) - rad * rad,
        s,
    );
}

/// Albedo components within `[0, 1]`.
pub open spec fn albedo_bounded(m: Material) -> bool {
    match m {
        Material::Lambertian(l) => {
            &&& 0 <= l.albedo@.x <= FX_SCALE as int
            &&& 0 <= l.albedo@.y <= FX_SCALE as int
            &&& 0 <= l.albedo@.z <= FX_SCALE as int
        },
        Material::Metal(mt) => {
            &&& 0 <= mt.albedo@.x <= FX_SCALE as int
            &&& 0 <= mt.albedo@.y <= FX_SCALE as int
            &&& 0 <= mt.albedo@.z <= FX_SCALE as int
        },
        Material::Dialectric(_) => true,
    }
}

/// Energy bound: whenever a material with albedo components in `[0, 1]`
/// scatters, the attenuation components stay in `[0, 1]` — a bounce
/// never amplifies a colour channel.
pub proof fn lemma_scatter_energy_bound(m: Material, r: RayM, g: crate::ray::GlintM, s: u64)
    requires
        albedo_bounded(m),
    ensures
        match scatter_spec(m, r, g, s).0 {
            Some(sc) => {
                &&& 0 <= sc.attenuation.x <= FX_SCALE as int
                &&& 0 <= sc.attenuation.y <= FX_SCALE as int
                &&& 0 <= sc.attenuation.z <= FX_SCALE as int
            },
            None => true,
        },
{
    match m {
        Material::Lambertian(_) => {},
        Material::Metal(_) => {},
        Material::Dialectric(_) => {},
    }
}

/// Every material in the scene keeps its albedo components in `[0, 1]`.
pub open spec fn scene_albedo_bounded(s: Seq<Sphere>) -> bool {
    forall|i: int| 0 <= i < s.len() ==> albedo_bounded(#[trigger] s[i].material)
}

/// One channel of the background gradient lies in `[0, 1]`: the white
/// term contributes at most `1 - t`, the sky term at most `t`.
proof fn lemma_gradient_channel_bounded(c_s: int, t: int)
    requires
        0 <= t <= FX_SCALE as int,
        0 <= c_s <= FX_SCALE as int,
    ensures
        0 <= fadd(fmul(FX_SCALE as int, fsub(FX_SCALE as int, t)), fmul(c_s, t)) <= FX_SCALE as int,
{
    lemma_fmul_unit_bounded(FX_SCALE as int, fsub(FX_SCALE as int, t));
    lemma_fmul_unit_bounded(c_s, t);
}

/// The background colour lies in `[0, 1]` per channel, for every ray —
/// the gradient parameter is clamped, so even a degenerate direction
/// cannot push it out.
pub proof fn lemma_background_bounded(r: RayM)
    ensures
        0 <= background_spec(r).x <= FX_SCALE as int,
        0 <= background_spec(r).y <= FX_SCALE as int,
        0 <= background_spec(r).z <= FX_SCALE as int,
{
    let one = FX_SCALE as int;
    let t0 = fmul(one / 2, fadd(vunit(r.dir).y, one));
    let t = if t0 < 0 {
        0int
    } else if t0 > one {
        one
    } else {
        t0
    };
    lemma_gradient_channel_bounded(one / 2, t);
    lemma_gradient_channel_bounded(45875, t);
    lemma_gradient_channel_bounded(one, t);
}

/// A miss is the gradient formula evaluated directly: whenever the
/// gradient parameter `0.5 * (unit.y + 1)` already lies in `[0, 1]` —
/// every direction whose normalisation does not saturate — the clamp is
/// the identity and the background is exactly the white-to-sky blend at
/// that parameter.  (`color_spec` returns this value on a miss with the
/// stream untouched, so no scatter is consulted.)
pub proof fn lemma_background_is_direct_gradient(r: RayM)
    requires
        0 <= fmul(FX_SCALE as int / 2, fadd(vunit(r.dir).y, FX_SCALE as int)) <= FX_SCALE as int,
    ensures
        ({
            let one = FX_SCALE as int;
            let t = fmul(one / 2, fadd(vunit(r.dir).y, one));
            background_spec(r) == vadd(
                vscale(V3 { x: one, y: one, z: one }, fsub(one, t)),
                vscale(V3 { x: one / 2, y: 45875int, z: one }, t),
            )
        }),
{
}

/// Radiance bound: in a scene whose albedos all lie in `[0, 1]`, the
/// integrator's estimate lies in `[0, 1]` per channel — for every ray,
/// every stream state and every depth.  The background starts inside
/// the bound and every bounce multiplies by attenuation factors that
/// never amplify.
#[verifier::rlimit(30)]
pub proof fn lemma_color_bounded(r: RayM, world: Seq<Sphere>, s: u64, depth: int)
    requires
        scene_albedo_bounded(world),
    ensures
        ({
            let c = color_spec(r, world, s, depth).0;
            &&& 0 <= c.x <= FX_SCALE as int
            &&& 0 <= c.y <= FX_SCALE as int
            &&& 0 <= c.z <= FX_SCALE as int
        }),
    decreases depth,
{
    if depth >= 1 {
        match scene_hit_spec(world, r, SHADOW_EPS as int, I64_MAX as int) {
            Some(g) => {
                lemma_scene_hit_nearest(world, r, SHADOW_EPS as int, I64_MAX as int);
                let i = choose|i: int|
                    0 <= i < world.len() && sphere_hit_spec(
                        world[i]@,
                        r,
                        SHADOW_EPS as int,
                        I64_MAX as int,
                    ) == Some(g);
                assert(g == sphere_glint_at(world[i]@, r, g.t));
                assert(albedo_bounded(g.material));
                let (sc, s1) = scatter_spec(g.material, r, g, s);
                match sc {
                    Some(scat) => {
                        lemma_scatter_energy_bound(g.material, r, g, s);
                        lemma_color_bounded(scat.ray, world, s1, depth - 1);
                        let c2 = color_spec(scat.ray, world, s1, depth - 1).0;
                        lemma_fmul_unit_bounded(scat.attenuation.x, c2.x);
                        lemma_fmul_unit_bounded(scat.attenuation.y, c2.y);
                        lemma_fmul_unit_bounded(scat.attenuation.z, c2.z);
                    },
                    None => {},
                }
            },
            None => {
                lemma_background_bounded(r);
            },
        }
    }
}

/// Idempotence of the scene query: it is a pure function of the scene,
/// the ray and the interval, so two identical queries agree — there is
/// no hidden mutable state.
pub proof fn lemma_shine_idempotent(
    world: Seq<Sphere>,
    r: RayM,
    t_min: int,
    t_max: int,
    first: Option<crate::ray::GlintM>,
    second: Option<crate::ray::GlintM>,
)
    requires
        first == scene_hit_spec(world, r, t_min, t_max),
        second == scene_hit_spec(world, r, t_min, t_max),
    ensures
        first == second,
{
}

/// An exhausted depth budget yields black, for every ray and scene, and
/// consumes nothing from the random stream.
pub proof fn lemma_color_depth_zero(r: RayM, world: Seq<Sphere>, s: u64, depth: int)
    requires
        depth <= 0,
    ensures
        color_spec(r, world, s, depth) == (black(), s),
{
}

/// Determinism of the render: the buffer is a pure function of scene,
/// camera and parameters (the seed included), so a sequential render
/// and any chunked — in particular parallel — render that assembles the
/// same rows are bit-identical.  `lemma_chunks_concat` supplies the
/// assembly step; this records that two buffers meeting the renderers'
/// postconditions are equal.
pub proof fn lemma_render_deterministic(
    world: Seq<Sphere>,
    cam: CameraM,
    rp: RenderParams,
    sequential: Seq<u8>,
    chunked: Seq<u8>,
)
    requires
        sequential == image_seq(world, cam, rp),
        chunked == image_seq(world, cam, rp),
    ensures
        sequential == chunked,
{
}

} // verus!
