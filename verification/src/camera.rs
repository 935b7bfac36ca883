//! The camera: maps normalised image-plane coordinates to primary rays,
//! with defocus blur (a lens-disk sample) and motion blur (a shutter
//! time sample).
//!
//! The vertical field of view arrives in degrees, so the viewport
//! height needs a tangent; it is computed from polynomial sine and
//! cosine approximations, themselves exactly specified — the contracts
//! pin the computed values, the approximation quality is a design
//! choice, not a claim.
use crate::fixed::{fadd, fdiv, fmul, fsub, Fx, FX_SCALE};
use crate::ray::{Ray, RayM};
use crate::rng::{prng_out, prng_step, unit_of, Prng};
use crate::vec3::{vadd, vcross, vlen_sq, vscale, vsub, vunit, vdiv_scalar, Vec3, V3};
use crate::material::sym_of;
use vstd::prelude::*;

verus! {

/// Pi in 16.16 fixed point.
pub const PI_FX: i64 = 205887;

/// Degrees to radians: `d * pi / 180`.
pub open spec fn d2r_spec(d: int) -> int {
    fdiv(fmul(d, PI_FX as int), 180 * FX_SCALE as int)
}

/// Exec counterpart of `d2r_spec`.
pub fn d2r(d: Fx) -> (r: Fx)
    ensures
        r@ == d2r_spec(d@),
{
    d.mul(Fx { raw: PI_FX }).div(Fx { raw: 180 * FX_SCALE })
}

/// Polynomial sine: `x - x^3/6 + x^5/120 - x^7/5040`, accurate on the
/// half-field-of-view range the camera uses.
pub open spec fn sin_spec(x: int) -> int {
    let x2 = fmul(x, x);
    let x3 = fmul(x2, x);
    let x5 = fmul(x3, x2);
    let x7 = fmul(x5, x2);
    fsub(
        fadd(fsub(x, fdiv(x3, 6 * FX_SCALE as int)), fdiv(x5, 120 * FX_SCALE as int)),
        fdiv(x7, 5040 * FX_SCALE as int),
    )
}

/// Polynomial cosine: `1 - x^2/2 + x^4/24 - x^6/720`.
pub open spec fn cos_spec(x: int) -> int {
    let x2 = fmul(x, x);
    let x4 = fmul(x2, x2);
    let x6 = fmul(x4, x2);
    fsub(
        fadd(fsub(FX_SCALE as int, fdiv(x2, 2 * FX_SCALE as int)), fdiv(x4, 24 * FX_SCALE as int)),
        fdiv(x6, 720 * FX_SCALE as int),
    )
}

/// Tangent as the quotient of the two polynomials; a non-positive
/// cosine (far outside the intended range) is clamped to the smallest
/// positive value, keeping the function total.
pub open spec fn tan_spec(x: int) -> int {
    let c = cos_spec(x);
    fdiv(sin_spec(x), if c <= 0 { 1int } else { c })
}

pub fn sin_fx(x: Fx) -> (r: Fx)
    ensures
        r@ == sin_spec(x@),
{
    let x2 = x.mul(x);
    let x3 = x2.mul(x);
    let x5 = x3.mul(x2);
    let x7 = x5.mul(x2);
    x.sub(x3.div(Fx { raw: 6 * FX_SCALE })).add(x5.div(Fx { raw: 120 * FX_SCALE })).sub(
        x7.div(Fx { raw: 5040 * FX_SCALE }),
    )
}

pub fn cos_fx(x: Fx) -> (r: Fx)
    ensures
        r@ == cos_spec(x@),
{
    let x2 = x.mul(x);
    let x4 = x2.mul(x2);
    let x6 = x4.mul(x2);
    Fx { raw: FX_SCALE }.sub(x2.div(Fx { raw: 2 * FX_SCALE })).add(
        x4.div(Fx { raw: 24 * FX_SCALE }),
    ).sub(x6.div(Fx { raw: 720 * FX_SCALE }))
}

pub fn tan_fx(x: Fx) -> (r: Fx)
    ensures
        r@ == tan_spec(x@),
{
    let c = cos_fx(x);
    let c = if c.raw <= 0 {
        Fx { raw: 1 }
    } else {
        c
    };
    sin_fx(x).div(c)
}

/// The model of a camera.
pub ghost struct CameraM {
    pub origin: V3,
    pub lower_left: V3,
    pub horizontal: V3,
    pub vertical: V3,
    pub u: V3,
    pub v: V3,
    pub lens_radius: int,
    pub shutter_open: int,
    pub shutter_close: int,
}

/// How a camera is built from its parameters: view basis from eye,
/// target and up; viewport from the field of view, aspect ratio and
/// focus distance; lens radius from the aperture.
pub open spec fn camera_spec(
    origin: V3,
    look_at: V3,
    up: V3,
    vfov: int,
    aspect_ratio: int,
    aperture: int,
    focus_dist: int,
    shutter_open: int,
    shutter_close: int,
) -> CameraM {
    let two = 2 * FX_SCALE as int;
    let theta = d2r_spec(vfov);
    let h = tan_spec(fdiv(theta, two));
    let viewport_h = fmul(two, h);
    let viewport_w = fmul(aspect_ratio, viewport_h);
    let w = vunit(vsub(origin, look_at));
    let u = vunit(vcross(up, w));
    let v = vcross(w, u);
    let horizontal = vscale(vscale(u, viewport_w), focus_dist);
    let vertical = vscale(vscale(v, viewport_h), focus_dist);
    let lower_left = vsub(
        vsub(vsub(origin, vdiv_scalar(horizontal, two)), vdiv_scalar(vertical, two)),
        vscale(w, focus_dist),
    );
    CameraM {
        origin: origin,
        lower_left: lower_left,
        horizontal: horizontal,
        vertical: vertical,
        u: u,
        v: v,
        lens_radius: fdiv(aperture, two),
        shutter_open: shutter_open,
        shutter_close: shutter_close,
    }
}

/// The rejection sampler for a point in the unit disk (the z component
/// stays zero): two coordinates in `[-1, 1)`, accepted when the squared
/// length is below one, with a fixed fuel and the origin as fallback.
pub open spec fn disk_spec(s: u64, fuel: nat) -> (V3, u64)
    decreases fuel,
{
    if fuel == 0 {
        (V3 { x: 0int, y: 0int, z: 0int }, s)
    } else {
        let x = sym_of(prng_out(s));
        let s1 = prng_step(s);
        let y = sym_of(prng_out(s1));
        let s2 = prng_step(s1);
        let p = V3 { x: x, y: y, z: 0int };
        if vlen_sq(p) < FX_SCALE as int {
            (p, s2)
        } else {
            disk_spec(s2, (fuel - 1) as nat)
        }
    }
}

/// How many rejection rounds the disk sampler attempts.
pub const DISK_FUEL: u8 = 64;

fn disk_point(rng: &mut Prng, fuel: u8) -> (r: Vec3)
    ensures
        (r@, final(rng)@) == disk_spec(old(rng)@, fuel as nat),
    decreases fuel,
{
    if fuel == 0 {
        Vec3::zero()
    } else {
        let x = rng.next_symmetric();
        let y = rng.next_symmetric();
        let p = Vec3::new(x, y, Fx { raw: 0 });
        if p.square_length().raw < FX_SCALE {
            p
        } else {
            disk_point(rng, fuel - 1)
        }
    }
}

/// A pseudo-random point in the unit disk.
pub fn random_unit_disk(rng: &mut Prng) -> (r: Vec3)
    ensures
        (r@, final(rng)@) == disk_spec(old(rng)@, DISK_FUEL as nat),
{
    disk_point(rng, DISK_FUEL)
}

/// The exact behaviour of `Camera::get_ray`: a lens-disk sample for
/// defocus blur, then a shutter-time sample for motion blur.
pub open spec fn get_ray_spec(cam: CameraM, s: int, t: int, state: u64) -> (RayM, u64) {
    let (rd0, st1) = disk_spec(state, DISK_FUEL as nat);
    let rd = vscale(rd0, cam.lens_radius);
    let offset = vadd(vscale(cam.u, rd.x), vscale(cam.v, rd.y));
    let tm = fadd(
        cam.shutter_open,
        fmul(unit_of(prng_out(st1)), fsub(cam.shutter_close, cam.shutter_open)),
    );
    let st2 = prng_step(st1);
    let dir = vsub(
        vsub(vadd(vadd(cam.lower_left, vscale(cam.horizontal, s)), vscale(cam.vertical, t)),
            cam.origin),
        offset,
    );
    (RayM { origin: vadd(cam.origin, offset), dir: dir, time: tm }, st2)
}

/// The camera: view basis, viewport corner and extents, lens radius and
/// shutter interval, fixed at construction.
#[derive(Clone, Copy, Debug, PartialEq, Eq, Structural)]
pub struct Camera {
    pub origin: Vec3,
    pub lower_left: Vec3,
    pub horizontal: Vec3,
    pub vertical: Vec3,
    pub u: Vec3,
    pub v: Vec3,
    pub lens_radius: Fx,
    pub shutter_open: Fx,
    pub shutter_close: Fx,
}

impl View for Camera {
    type V = CameraM;

    open spec fn view(&self) -> CameraM {
        CameraM {
            origin: self.origin@,
            lower_left: self.lower_left@,
            horizontal: self.horizontal@,
            vertical: self.vertical@,
            u: self.u@,
            v: self.v@,
            lens_radius: self.lens_radius@,
            shutter_open: self.shutter_open@,
            shutter_close: self.shutter_close@,
        }
    }
}

impl Camera {
    /// Build a camera from eye position, target, up vector, vertical
    /// field of view in degrees, aspect ratio, aperture, focus distance
    /// and shutter interval.
    pub fn new(
        origin: Vec3,
        look_at: Vec3,
        up: Vec3,
        vfov: Fx,
        aspect_ratio: Fx,
        aperture: Fx,
        focus_dist: Fx,
        shutter_open: Fx,
        shutter_close: Fx,
    ) -> (cam: Camera)
        ensures
            cam@ == camera_spec(
                origin@,
                look_at@,
                up@,
                vfov@,
                aspect_ratio@,
                aperture@,
                focus_dist@,
                shutter_open@,
                shutter_close@,
            ),
    {
        let two = Fx { raw: 2 * FX_SCALE };
        let theta = d2r(vfov);
        let h = tan_fx(theta.div(two));
        let viewport_h = two.mul(h);
        let viewport_w = aspect_ratio.mul(viewport_h);

        let w = origin.sub(look_at).normalize();
        let u = up.cross(w).normalize();
        let v = w.cross(u);

        let horizontal = u.scale(viewport_w).scale(focus_dist);
        let vertical = v.scale(viewport_h).scale(focus_dist);
        let lower_left = origin.sub(horizontal.scale_div(two)).sub(vertical.scale_div(two)).sub(
            w.scale(focus_dist),
        );

        Camera {
            origin,
            lower_left,
            horizontal,
            vertical,
            u,
            v,
            lens_radius: aperture.div(two),
            shutter_open,
            shutter_close,
        }
    }

    /// The primary ray through normalised image coordinates `(s, t)`,
    /// jittered over the lens disk and the shutter interval.
    pub fn get_ray(&self, s: Fx, t: Fx, rng: &mut Prng) -> (r: Ray)
        ensures
            (r@, final(rng)@) == get_ray_spec(self@, s@, t@, old(rng)@),
    {
        let rd = random_unit_disk(rng).scale(self.lens_radius);
        let offset = self.u.scale(rd.x).add(self.v.scale(rd.y));
        let u01 = rng.next_unit();
        let time = self.shutter_open.add(u01.mul(self.shutter_close.sub(self.shutter_open)));
        let dir = self.lower_left.add(self.horizontal.scale(s)).add(self.vertical.scale(t)).sub(
            self.origin,
        ).sub(offset);
        Ray::new(self.origin.add(offset), dir, time)
    }
}

} // verus!
