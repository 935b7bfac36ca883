//! Materials and their scattering behaviour.
//!
//! The polymorphic material contract of the renderer is a closed sum:
//! diffuse (Lambertian), specular with roughness (Metal), and
//! transmissive (Dialectric).  `scatter` answers an incoming ray at a
//! hit with an attenuated outgoing ray, or with absorption (`None`).
//! Every branch, including the pseudo-random draws it consumes, is
//! mirrored exactly by `scatter_spec`.
use crate::fixed::{fadd, fdiv, fmul, fsqrt, fsub, iabs, sat64, Fx, FX_SCALE};
use crate::ray::{GlintM, Glint, Ray, RayM};
use crate::rng::{prng_out, prng_step, unit_of, Prng};
use crate::vec3::{vadd, vdot, vlen_sq, vneg, vscale, vsub, vunit, Vec3, V3};
use vstd::prelude::*;

verus! {

/// An attenuated outgoing ray produced by a scatter.
#[derive(Clone, Copy, Debug, PartialEq, Eq, Structural)]
pub struct Scatter {
    pub ray: Ray,
    pub attenuation: Vec3,
}

/// The model of a scatter result.
pub ghost struct ScatterM {
    pub ray: RayM,
    pub attenuation: V3,
}

/// The model of an optional scatter result.
pub open spec fn scatter_view(r: Option<Scatter>) -> Option<ScatterM> {
    match r {
        Some(s) => Some(ScatterM { ray: s.ray@, attenuation: s.attenuation@ }),
        None => None,
    }
}

/// A diffuse surface.
#[derive(Clone, Copy, Debug, PartialEq, Eq, Structural)]
pub struct Lambertian {
    pub albedo: Vec3,
}

impl Lambertian {
    pub fn new(albedo: Vec3) -> (r: Lambertian)
        ensures
            r.albedo == albedo,
    {
        Lambertian { albedo }
    }

    /// Close the concrete material into the shared sum type.
    pub fn mat_ptr(self) -> (r: Material)
        ensures
            r == Material::Lambertian(self),
    {
        Material::Lambertian(self)
    }
}

/// A specular surface with a roughness (`fuzz`) perturbation.
#[derive(Clone, Copy, Debug, PartialEq, Eq, Structural)]
pub struct Metal {
    pub albedo: Vec3,
    pub fuzz: Fx,
}

impl Metal {
    /// `fuzz` is clamped into `[0, 1]` at construction.
    pub fn new(albedo: Vec3, fuzz: Fx) -> (r: Metal)
        ensures
            r.albedo == albedo,
            r.fuzz@ == if fuzz@ < 0 {
                0int
            } else if fuzz@ > FX_SCALE as int {
                FX_SCALE as int
            } else {
                fuzz@
            },
    {
        let f = if fuzz.raw < 0 {
            Fx { raw: 0 }
        } else if fuzz.raw > FX_SCALE {
            Fx { raw: FX_SCALE }
        } else {
            fuzz
        };
        Metal { albedo, fuzz: f }
    }

    /// Close the concrete material into the shared sum type.
    pub fn mat_ptr(self) -> (r: Material)
        ensures
            r == Material::Metal(self),
    {
        Material::Metal(self)
    }
}

/// A transmissive surface with an index of refraction.
#[derive(Clone, Copy, Debug, PartialEq, Eq, Structural)]
pub struct Dialectric {
    pub i_o_r: Fx,
}

impl Dialectric {
    /// Close the concrete material into the shared sum type.
    pub fn mat_ptr(self) -> (r: Material)
        ensures
            r == Material::Dialectric(self),
    {
        Material::Dialectric(self)
    }
}

/// The closed sum of the surface kinds the renderer knows.
#[derive(Clone, Copy, Debug, PartialEq, Eq, Structural)]
pub enum Material {
    Lambertian(Lambertian),
    Metal(Metal),
    Dialectric(Dialectric),
}

/// A draw in `[-1, 1)` from the value `v`.
pub open spec fn sym_of(v: u64) -> int {
    2 * unit_of(v) - FX_SCALE as int
}

/// The rejection sampler for a point in the open unit ball: draw three
/// coordinates in `[-1, 1)` and accept when the squared length is
/// strictly between zero and one; retry while fuel lasts, else fall
/// back to the origin (callers guard the degenerate case).
pub open spec fn ball_spec(s: u64, fuel: nat) -> (V3, u64)
    decreases fuel,
{
    if fuel == 0 {
        (V3 { x: 0int, y: 0int, z: 0int }, s)
    } else {
        let x = sym_of(prng_out(s));
        let s1 = prng_step(s);
        let y = sym_of(prng_out(s1));
        let s2 = prng_step(s1);
        let z = sym_of(prng_out(s2));
        let s3 = prng_step(s2);
        let p = V3 { x: x, y: y, z: z };
        let sq = vlen_sq(p);
        if 0 < sq < FX_SCALE as int {
            (p, s3)
        } else {
            ball_spec(s3, (fuel - 1) as nat)
        }
    }
}

/// How many rejection rounds are attempted before falling back.
pub const BALL_FUEL: u8 = 64;

fn ball_point(rng: &mut Prng, fuel: u8) -> (r: Vec3)
    ensures
        (r@, final(rng)@) == ball_spec(old(rng)@, fuel as nat),
    decreases fuel,
{
    if fuel == 0 {
        Vec3::zero()
    } else {
        let x = rng.next_symmetric();
        let y = rng.next_symmetric();
        let z = rng.next_symmetric();
        let p = Vec3::new(x, y, z);
        let sq = p.square_length();
        if 0 < sq.raw && sq.raw < FX_SCALE {
            p
        } else {
            ball_point(rng, fuel - 1)
        }
    }
}

/// A pseudo-random point strictly inside the unit ball (at the origin
/// only if every rejection round failed).
pub fn random_unit_point(rng: &mut Prng) -> (r: Vec3)
    ensures
        (r@, final(rng)@) == ball_spec(old(rng)@, BALL_FUEL as nat),
{
    ball_point(rng, BALL_FUEL)
}

/// Ideal mirror reflection of `i` about the normal `n`.
pub open spec fn reflect_spec(i: V3, n: V3) -> V3 {
    vsub(i, vscale(n, fmul(vdot(i, n), 2 * FX_SCALE as int)))
}

pub fn reflect(incident: &Vec3, normal: &Vec3) -> (r: Vec3)
    ensures
        r@ == reflect_spec(incident@, normal@),
{
    incident.sub(normal.scale(incident.dot(*normal).mul(Fx { raw: 2 * FX_SCALE })))
}

/// Snell refraction of the unit direction `i` at normal `n` with the
/// refraction ratio `etais`.
pub open spec fn refract_spec(i: V3, n: V3, etais: int) -> V3 {
    let c0 = vdot(vneg(i), n);
    let cos = if c0 <= FX_SCALE as int {
        c0
    } else {
        FX_SCALE as int
    };
    let perp = vscale(vadd(i, vscale(n, cos)), etais);
    let para_len = fsqrt(sat64(iabs(fsub(FX_SCALE as int, vlen_sq(perp)))));
    vadd(perp, vneg(vscale(n, para_len)))
}

pub fn refract(incident: &Vec3, normal: &Vec3, etais: Fx) -> (r: Vec3)
    ensures
        r@ == refract_spec(incident@, normal@, etais@),
{
    let cos = incident.neg().dot(*normal).min(Fx { raw: FX_SCALE });
    let perp = incident.add(normal.scale(cos)).scale(etais);
    let para_len = Fx { raw: FX_SCALE }.sub(perp.square_length()).abs().sqrt();
    perp.add(normal.scale(para_len).neg())
}

/// Schlick's reflectance approximation.
pub open spec fn reflectance_spec(cos: int, i_o_r: int) -> int {
    let one = FX_SCALE as int;
    let r0b = fdiv(fsub(one, i_o_r), fadd(one, i_o_r));
    let r0 = fmul(r0b, r0b);
    let u = fsub(one, cos);
    let u2 = fmul(u, u);
    let u4 = fmul(u2, u2);
    let u5 = fmul(u4, u);
    fadd(r0, fmul(fsub(one, r0), u5))
}

pub fn reflectance(cos: Fx, i_o_r: Fx) -> (r: Fx)
    ensures
        r@ == reflectance_spec(cos@, i_o_r@),
{
    let one = Fx { raw: FX_SCALE };
    let r0b = one.sub(i_o_r).div(one.add(i_o_r));
    let r0 = r0b.mul(r0b);
    let u = one.sub(cos);
    let u2 = u.mul(u);
    let u4 = u2.mul(u2);
    let u5 = u4.mul(u);
    r0.add(one.sub(r0).mul(u5))
}

/// The exact behaviour of `Material::scatter`: the produced ray and
/// attenuation, or absorption, together with the stream state left
/// behind.
pub open spec fn scatter_spec(m: Material, ray_in: RayM, g: GlintM, s: u64) -> (Option<
    ScatterM,
>, u64) {
    let one = FX_SCALE as int;
    match m {
        Material::Lambertian(l) => {
            let (bp, s1) = ball_spec(s, BALL_FUEL as nat);
            let dir0 = vadd(g.normal, vunit(bp));
            let dir = if vlen_sq(dir0) == 0 {
                g.normal
            } else {
                dir0
            };
            (
                Some(
                    ScatterM {
                        ray: RayM { origin: g.p, dir: dir, time: ray_in.time },
                        attenuation: l.albedo@,
                    },
                ),
                s1,
            )
        },
        Material::Metal(mt) => {
            let refl = reflect_spec(vunit(ray_in.dir), g.normal);
            let (bp, s1) = ball_spec(s, BALL_FUEL as nat);
            let dir = vadd(refl, vscale(bp, mt.fuzz@));
            if vdot(refl, g.normal) > 0 {
                (
                    Some(
                        ScatterM {
                            ray: RayM { origin: g.p, dir: dir, time: ray_in.time },
                            attenuation: mt.albedo@,
                        },
                    ),
                    s1,
                )
            } else {
                (None, s1)
            }
        },
        Material::Dialectric(d) => {
            let ratio = if g.front_facing {
                fdiv(one, d.i_o_r@)
            } else {
                d.i_o_r@
            };
            let ud = vunit(ray_in.dir);
            let c0 = vdot(vneg(ud), g.normal);
            let cos = if c0 <= one {
                c0
            } else {
                one
            };
            let sin = fsqrt(fsub(one, fmul(cos, cos)));
            if fmul(ratio, sin) > one {
                // total internal reflection: no draw is consumed
                (
                    Some(
                        ScatterM {
                            ray: RayM {
                                origin: g.p,
                                dir: reflect_spec(ud, g.normal),
                                time: ray_in.time,
                            },
                            attenuation: V3 { x: one, y: one, z: one },
                        },
                    ),
                    s,
                )
            } else {
                let rp = reflectance_spec(cos, ratio);
                let draw = unit_of(prng_out(s));
                let s1 = prng_step(s);
                let dir = if rp > draw {
                    reflect_spec(ud, g.normal)
                } else {
                    refract_spec(ud, g.normal, ratio)
                };
                (
                    Some(
                        ScatterM {
                            ray: RayM { origin: g.p, dir: dir, time: ray_in.time },
                            attenuation: V3 { x: one, y: one, z: one },
                        },
                    ),
                    s1,
                )
            }
        },
    }
}

impl Material {
    /// Answer an incoming ray at a hit: an attenuated outgoing ray, or
    /// absorption.
    pub fn scatter(&self, ray_in: &Ray, glint: &Glint, rng: &mut Prng) -> (r: Option<Scatter>)
        ensures
            (scatter_view(r), final(rng)@) == scatter_spec(*self, ray_in@, glint@, old(rng)@),
    {
        match self {
            Material::Lambertian(l) => {
                let bp = random_unit_point(rng);
                let dir0 = glint.normal.add(bp.normalize());
                let dir = if dir0.square_length().raw == 0 {
                    glint.normal
                } else {
                    dir0
                };
                let ray = Ray::new(glint.p, dir, ray_in.time());
                Some(Scatter { ray, attenuation: l.albedo })
            },
            Material::Metal(mt) => {
                let refl = reflect(&ray_in.direction().normalize(), &glint.normal);
                let bp = random_unit_point(rng);
                let dir = refl.add(bp.scale(mt.fuzz));
                let scattered = Ray::new(glint.p, dir, ray_in.time());
                if refl.dot(glint.normal).raw > 0 {
                    Some(Scatter { ray: scattered, attenuation: mt.albedo })
                } else {
                    None
                }
            },
            Material::Dialectric(d) => {
                let one = Fx { raw: FX_SCALE };
                let ratio = if glint.front_facing {
                    one.div(d.i_o_r)
                } else {
                    d.i_o_r
                };
                let ud = ray_in.direction().normalize();
                let cos = ud.neg().dot(glint.normal).min(one);
                let sin = one.sub(cos.mul(cos)).sqrt();
                let dir = if ratio.mul(sin).raw > FX_SCALE {
                    reflect(&ud, &glint.normal)
                } else {
                    let rp = reflectance(cos, ratio);
                    let draw = rng.next_unit();
                    if rp.raw > draw.raw {
                        reflect(&ud, &glint.normal)
                    } else {
                        refract(&ud, &glint.normal, ratio)
                    }
                };
                let ray_out = Ray::new(glint.p, dir, ray_in.time());
                Some(Scatter { ray: ray_out, attenuation: Vec3::one() })
            },
        }
    }
}

} // verus!
