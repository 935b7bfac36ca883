//! Spheres — static or linearly moving — and the scene's nearest-hit
//! query.
//!
//! `Sphere::shine` solves the ray/sphere quadratic and reports the
//! nearest root inside the queried interval; `shine` over a scene scans
//! the spheres in order, shrinking the interval's upper end to the best
//! hit so far, which makes the final answer the globally nearest hit
//! whatever the order of the spheres.
use crate::fixed::{fadd, fdiv, fmul, fneg, fsqrt, fsub, Fx};
use crate::material::Material;
use crate::ray::{oriented, ray_at, Glint, GlintM, Ray, RayM};
use crate::vec3::{vdiv_scalar, vdot, vlen_sq, vscale, vsub, vadd, Vec3, V3};
use vstd::prelude::*;

verus! {

/// The model of a sphere.
pub ghost struct SphereM {
    pub center_start: V3,
    pub center_end: V3,
    pub radius: int,
    pub material: Material,
    pub t_start: int,
    pub t_end: int,
}

/// A sphere whose centre moves linearly from `center_start` at time
/// `t_start` to `center_end` at `t_end`; a static sphere has equal
/// centres.  The radius may be negative to flip the normal (hollow
/// glass shells), so consumers never assume positivity.
#[derive(Clone, Copy, Debug, PartialEq, Eq, Structural)]
pub struct Sphere {
    pub center_start: Vec3,
    pub center_end: Vec3,
    pub radius: Fx,
    pub material: Material,
    pub t_start: Fx,
    pub t_end: Fx,
}

impl View for Sphere {
    type V = SphereM;

    open spec fn view(&self) -> SphereM {
        SphereM {
            center_start: self.center_start@,
            center_end: self.center_end@,
            radius: self.radius@,
            material: self.material,
            t_start: self.t_start@,
            t_end: self.t_end@,
        }
    }
}

/// Where the centre is at time `t`: linear interpolation between the
/// two endpoint centres.
pub open spec fn center_spec(sp: SphereM, t: int) -> V3 {
    vadd(
        sp.center_start,
        vdiv_scalar(
            vscale(vsub(sp.center_end, sp.center_start), fsub(t, sp.t_start)),
            fsub(sp.t_end, sp.t_start),
        ),
    )
}

/// The exact answer of `Sphere::shine`: the quadratic's discriminant
/// decides whether the ray meets the sphere; of the two roots the
/// nearer is preferred, the farther tried next, and the hit record is
/// built at the accepted root with the outward normal oriented against
/// the ray.
pub open spec fn sphere_hit_spec(sp: SphereM, r: RayM, t_min: int, t_max: int) -> Option<GlintM> {
    let oc = vsub(r.origin, center_spec(sp, r.time));
    let a = vlen_sq(r.dir);
    let half_b = vdot(oc, r.dir);
    let c = fsub(vlen_sq(oc), fmul(sp.radius, sp.radius));
    let discrim = fsub(fmul(half_b, half_b), fmul(a, c));
    if discrim < 0 {
        None
    } else {
        let sqrtd = fsqrt(discrim);
        let nroot = fdiv(fsub(fneg(half_b), sqrtd), a);
        let proot = fdiv(fadd(fneg(half_b), sqrtd), a);
        if t_min <= nroot && nroot < t_max {
            Some(sphere_glint_at(sp, r, nroot))
        } else if t_min <= proot && proot < t_max {
            Some(sphere_glint_at(sp, r, proot))
        } else {
            None
        }
    }
}

/// The record a sphere reports for an accepted root.
pub open spec fn sphere_glint_at(sp: SphereM, r: RayM, root: int) -> GlintM {
    let pnt = ray_at(r, root);
    let outward = vdiv_scalar(vsub(pnt, center_spec(sp, r.time)), sp.radius);
    oriented(
        GlintM {
            p: pnt,
            normal: V3 { x: 0int, y: 0int, z: 0int },
            material: sp.material,
            t: root,
            front_facing: false,
        },
        r,
        outward,
    )
}

/// The model of an optional hit record.
pub open spec fn glint_view(r: Option<Glint>) -> Option<GlintM> {
    match r {
        Some(g) => Some(g@),
        None => None,
    }
}

impl Sphere {
    /// The centre at time `t`.
    pub fn center(&self, t: Fx) -> (r: Vec3)
        ensures
            r@ == center_spec(self@, t@),
    {
        self.center_start.add(
            self.center_end.sub(self.center_start).scale(t.sub(self.t_start)).scale_div(
                self.t_end.sub(self.t_start),
            ),
        )
    }

    /// The nearest intersection of `r` with this sphere whose parameter
    /// lies in `[t_min, t_max)`, if any.  Any record returned carries a
    /// normal that opposes the ray direction.
    pub fn shine(&self, r: &Ray, t_min: Fx, t_max: Fx) -> (res: Option<Glint>)
        ensures
            glint_view(res) == sphere_hit_spec(self@, r@, t_min@, t_max@),
            match res {
                Some(g) => vdot(r@.dir, g@.normal) <= 0,
                None => true,
            },
    {
        let r_time = r.time();
        let oc = r.origin().sub(self.center(r_time));
        let a = r.direction().square_length();
        let half_b = oc.dot(*r.direction());
        let c = oc.square_length().sub(self.radius.mul(self.radius));

        let discrim = half_b.mul(half_b).sub(a.mul(c));
        if discrim.raw < 0 {
            return None;
        }
        let sqrtd = discrim.sqrt();
        let nroot = half_b.neg().sub(sqrtd).div(a);
        let proot = half_b.neg().add(sqrtd).div(a);

        let root = if t_min.raw <= nroot.raw && nroot.raw < t_max.raw {
            nroot
        } else if t_min.raw <= proot.raw && proot.raw < t_max.raw {
            proot
        } else {
            return None;
        };

        let pnt = r.at(root);
        let normal = pnt.sub(self.center(r_time)).scale_div(self.radius);
        let mut glint = Glint::new(pnt, root, self.material);
        glint.set_face_normal(r, normal);

        Some(glint)
    }
}

/// The scan that answers the scene query: spheres are tested in order,
/// each against the interval whose upper end has shrunk to the best hit
/// so far, and the last accepted record wins.
pub open spec fn scene_scan(
    s: Seq<Sphere>,
    r: RayM,
    t_min: int,
    t_max: int,
    acc: Option<GlintM>,
) -> Option<GlintM>
    decreases s.len(),
{
    if s.len() == 0 {
        acc
    } else {
        let bound = match acc {
            Some(g) => g.t,
            None => t_max,
        };
        let acc2 = match sphere_hit_spec(s[0]@, r, t_min, bound) {
            Some(g) => Some(g),
            None => acc,
        };
        scene_scan(s.drop_first(), r, t_min, t_max, acc2)
    }
}

/// The exact answer of the scene's nearest-hit query.
pub open spec fn scene_hit_spec(s: Seq<Sphere>, r: RayM, t_min: int, t_max: int) -> Option<
    GlintM,
> {
    scene_scan(s, r, t_min, t_max, None)
}

/// The interval's upper end a scan uses while `acc` is the best hit so
/// far.
pub open spec fn hit_bound(acc: Option<GlintM>, t_max: int) -> int {
    match acc {
        Some(g) => g.t,
        None => t_max,
    }
}

/// What shrinking the interval's upper end from `t_max` to `b` does to
/// a sphere's answer: a hit inside the narrower interval is exactly the
/// hit of the wider one, and a miss in the narrower interval leaves any
/// wider hit at `b` or beyond.  This is why the scan may shrink the
/// interval to the best hit so far without missing a nearer hit.
pub proof fn lemma_hit_narrow(sp: SphereM, r: RayM, t_min: int, b: int, t_max: int)
    requires
        b <= t_max,
    ensures
        match sphere_hit_spec(sp, r, t_min, b) {
            Some(h) => sphere_hit_spec(sp, r, t_min, t_max) == Some(h),
            None => match sphere_hit_spec(sp, r, t_min, t_max) {
                Some(h) => h.t >= b,
                None => true,
            },
        },
{
    let oc = vsub(r.origin, center_spec(sp, r.time));
    let a = vlen_sq(r.dir);
    let half_b = vdot(oc, r.dir);
    let c = fsub(vlen_sq(oc), fmul(sp.radius, sp.radius));
    let discrim = fsub(fmul(half_b, half_b), fmul(a, c));
    if discrim >= 0 {
        let sqrtd = fsqrt(discrim);
        crate::fixed::lemma_fsqrt_nonneg(discrim);
        crate::vec3::lemma_vlen_sq_nonneg(r.dir);
        let n1 = fsub(fneg(half_b), sqrtd);
        let n2 = fadd(fneg(half_b), sqrtd);
        crate::fixed::lemma_fdiv_monotone(n1, n2, a);
    }
}

/// The scan's answer dominates every sphere's own full-interval answer,
/// and is itself one of them (or the accumulator it started from).
proof fn lemma_scan_nearest(s: Seq<Sphere>, r: RayM, t_min: int, t_max: int, acc: Option<GlintM>)
    requires
        match acc {
            Some(g) => t_min <= g.t <= t_max,
            None => true,
        },
    ensures
        match scene_scan(s, r, t_min, t_max, acc) {
            None => acc == None::<GlintM> && (forall|i: int|
                0 <= i < s.len() ==> #[trigger] sphere_hit_spec(s[i]@, r, t_min, t_max)
                    == None::<GlintM>),
            Some(g) => {
                &&& t_min <= g.t
                &&& g.t <= hit_bound(acc, t_max)
                &&& (acc == Some(g) || g.t < hit_bound(acc, t_max))
                &&& (acc == Some(g) || exists|i: int|
                    0 <= i < s.len() && #[trigger] sphere_hit_spec(s[i]@, r, t_min, t_max)
                        == Some(g))
                &&& (forall|i: int|
                    0 <= i < s.len() ==> match #[trigger] sphere_hit_spec(
                        s[i]@,
                        r,
                        t_min,
                        t_max,
                    ) {
                        Some(h) => g.t <= h.t,
                        None => true,
                    })
            },
        },
    decreases s.len(),
{
    if s.len() > 0 {
        let bound = hit_bound(acc, t_max);
        let narrow = sphere_hit_spec(s[0]@, r, t_min, bound);
        lemma_hit_narrow(s[0]@, r, t_min, bound, t_max);
        let acc2 = match narrow {
            Some(g) => Some(g),
            None => acc,
        };
        let rest = s.drop_first();
        lemma_scan_nearest(rest, r, t_min, t_max, acc2);
        assert(forall|j: int| 0 <= j < rest.len() ==> rest[j] == s[j + 1]);
        let res = scene_scan(s, r, t_min, t_max, acc);
        assert(res == scene_scan(rest, r, t_min, t_max, acc2));
        match res {
            None => {
                assert forall|i: int| 0 <= i < s.len() implies #[trigger] sphere_hit_spec(
                    s[i]@,
                    r,
                    t_min,
                    t_max,
                ) == None::<GlintM> by {
                    if i > 0 {
                        assert(sphere_hit_spec(rest[i - 1]@, r, t_min, t_max) == None::<GlintM>);
                    }
                }
            },
            Some(g) => {
                assert forall|i: int| 0 <= i < s.len() implies match #[trigger] sphere_hit_spec(
                    s[i]@,
                    r,
                    t_min,
                    t_max,
                ) {
                    Some(h) => g.t <= h.t,
                    None => true,
                } by {
                    if i == 0 {
                        assert(g.t <= hit_bound(acc2, t_max));
                    } else {
                        assert(rest[i - 1] == s[i]);
                        assert(match sphere_hit_spec(rest[i - 1]@, r, t_min, t_max) {
                            Some(h) => g.t <= h.t,
                            None => true,
                        });
                    }
                }
                if acc2 == Some(g) && narrow == Some(g) {
                    assert(sphere_hit_spec(s[0]@, r, t_min, t_max) == Some(g));
                }
            },
        }
    }
}

/// The scene query returns the globally nearest hit: when it answers,
/// the answer is some sphere's own hit on the full interval, no sphere
/// hits nearer, and the parameter lies in the interval; when it answers
/// nothing, no sphere hits the interval at all.  The order of the
/// spheres therefore never affects the distance of the reported hit.
pub proof fn lemma_scene_hit_nearest(s: Seq<Sphere>, r: RayM, t_min: int, t_max: int)
    ensures
        match scene_hit_spec(s, r, t_min, t_max) {
            None => forall|i: int|
                0 <= i < s.len() ==> #[trigger] sphere_hit_spec(s[i]@, r, t_min, t_max)
                    == None::<GlintM>,
            Some(g) => {
                &&& t_min <= g.t < t_max
                &&& exists|i: int|
                    0 <= i < s.len() && #[trigger] sphere_hit_spec(s[i]@, r, t_min, t_max)
                        == Some(g)
                &&& forall|i: int|
                    0 <= i < s.len() ==> match #[trigger] sphere_hit_spec(s[i]@, r, t_min, t_max) {
                        Some(h) => g.t <= h.t,
                        None => true,
                    }
            },
        },
{
    lemma_scan_nearest(s, r, t_min, t_max, None::<GlintM>);
}

/// The nearest hit of `r` in `[t_min, t_max)` over the whole scene.
/// Any record returned carries a normal that opposes the ray direction.
pub fn shine(world: &Vec<Sphere>, r: &Ray, t_min: Fx, t_max: Fx) -> (res: Option<Glint>)
    ensures
        glint_view(res) == scene_hit_spec(world@, r@, t_min@, t_max@),
        match res {
            Some(g) => vdot(r@.dir, g@.normal) <= 0,
            None => true,
        },
{
    proof {
        crate::laws::lemma_scene_hit_normal_opposes(world@, r@, t_min@, t_max@);
    }
    let ghost answer = scene_hit_spec(world@, r@, t_min@, t_max@);
    proof {
        assert(world@.skip(0) =~= world@);
    }
    let mut t_end = t_max;
    let mut best: Option<Glint> = None;
    let mut i: usize = 0;
    while i < world.len()
        invariant
            0 <= i <= world@.len(),
            t_end@ == match glint_view(best) {
                Some(g) => g.t,
                None => t_max@,
            },
            scene_scan(world@.skip(i as int), r@, t_min@, t_max@, glint_view(best)) == answer,
        decreases world@.len() - i,
    {
        proof {
            assert(world@.skip(i as int)[0] == world@[i as int]);
            assert(world@.skip(i as int).drop_first() =~= world@.skip(i as int + 1));
        }
        let sp = &world[i];
        match sp.shine(r, t_min, t_end) {
            Some(glnt) => {
                t_end = glnt.t;
                best = Some(glnt);
            },
            None => {},
        }
        i = i + 1;
    }
    proof {
        assert(world@.skip(world@.len() as int).len() == 0);
    }
    best
}

} // verus!
