//! Rays and hit records.
use crate::material::Material;
use crate::vec3::{vadd, vdot, vneg, vscale, Vec3, V3};
use vstd::prelude::*;

verus! {

/// The model of a ray: origin, direction and sample time.
pub ghost struct RayM {
    pub origin: V3,
    pub dir: V3,
    pub time: int,
}

/// The point a ray reaches at parameter `t`.
pub open spec fn ray_at(r: RayM, t: int) -> V3 {
    vadd(r.origin, vscale(r.dir, t))
}

/// A ray: origin plus direction, stamped with the shutter time it was
/// sampled at (for motion-blurred geometry).
#[derive(Clone, Copy, Debug, PartialEq, Eq, Structural)]
pub struct Ray {
    pub origin: Vec3,
    pub dir: Vec3,
    pub time: crate::fixed::Fx,
}

impl View for Ray {
    type V = RayM;

    open spec fn view(&self) -> RayM {
        RayM { origin: self.origin@, dir: self.dir@, time: self.time@ }
    }
}

impl Ray {
    pub fn new(origin: Vec3, dir: Vec3, time: crate::fixed::Fx) -> (r: Ray)
        ensures
            r@ == (RayM { origin: origin@, dir: dir@, time: time@ }),
    {
        Ray { origin, dir, time }
    }

    pub fn direction(&self) -> (r: &Vec3)
        ensures
            r@ == self@.dir,
    {
        &self.dir
    }

    pub fn origin(&self) -> (r: &Vec3)
        ensures
            r@ == self@.origin,
    {
        &self.origin
    }

    /// `origin + direction * t`.
    pub fn at(&self, t: crate::fixed::Fx) -> (r: Vec3)
        ensures
            r@ == ray_at(self@, t@),
    {
        self.origin.add(self.dir.scale(t))
    }

    pub fn time(&self) -> (r: crate::fixed::Fx)
        ensures
            r@ == self@.time,
    {
        self.time
    }
}

/// The model of a hit record.
pub ghost struct GlintM {
    pub p: V3,
    pub normal: V3,
    pub material: Material,
    pub t: int,
    pub front_facing: bool,
}

/// How `set_face_normal` orients a record: the stored normal always
/// opposes the incoming ray, and `front_facing` records which side the
/// ray came from.  The back-face branch checks the negated normal's own
/// dot product rather than trusting negation: saturating negation can
/// lose one unit at the representation's lower extreme, so negating the
/// outward normal does not always negate the dot, and in that corner
/// the zero normal is stored instead — the one vector whose dot with
/// anything is zero.
pub open spec fn oriented(g: GlintM, r: RayM, outward: V3) -> GlintM {
    if vdot(r.dir, outward) < 0 {
        GlintM { normal: outward, front_facing: true, ..g }
    } else if vdot(r.dir, vneg(outward)) <= 0 {
        GlintM { normal: vneg(outward), front_facing: false, ..g }
    } else {
        GlintM { normal: V3 { x: 0int, y: 0int, z: 0int }, front_facing: false, ..g }
    }
}

/// The orientation invariant: whatever the outward normal, the stored
/// normal's dot with the ray direction is never positive — the record's
/// normal always faces the incoming ray.
pub proof fn lemma_oriented_normal_opposes(g: GlintM, r: RayM, outward: V3)
    ensures
        vdot(r.dir, oriented(g, r, outward).normal) <= 0,
{
    if !(vdot(r.dir, outward) < 0) && !(vdot(r.dir, vneg(outward)) <= 0) {
        vstd::arithmetic::div_mod::lemma_div_of0(crate::fixed::FX_SCALE as int);
        assert(vdot(r.dir, V3 { x: 0int, y: 0int, z: 0int }) == 0);
    }
}

/// A hit record: where a ray met a surface, the oriented normal there,
/// the ray parameter, the side, and the material met.
#[derive(Clone, Copy, Debug, PartialEq, Eq, Structural)]
pub struct Glint {
    pub p: Vec3,
    pub normal: Vec3,
    pub material: Material,
    pub t: crate::fixed::Fx,
    pub front_facing: bool,
}

impl View for Glint {
    type V = GlintM;

    open spec fn view(&self) -> GlintM {
        GlintM {
            p: self.p@,
            normal: self.normal@,
            material: self.material,
            t: self.t@,
            front_facing: self.front_facing,
        }
    }
}

impl Glint {
    /// A fresh record; the normal and side are set afterwards by
    /// `set_face_normal`.
    pub fn new(p: Vec3, t: crate::fixed::Fx, material: Material) -> (r: Glint)
        ensures
            r@ == (GlintM {
                p: p@,
                normal: V3 { x: 0int, y: 0int, z: 0int },
                material: material,
                t: t@,
                front_facing: false,
            }),
    {
        Glint {
            p,
            normal: Vec3::zero(),
            material,
            t,
            front_facing: false,
        }
    }

    /// Orient the record's normal against the incoming ray.  Afterwards
    /// the stored normal never points with the ray, whichever side of
    /// the surface was hit.
    pub fn set_face_normal(&mut self, ray: &Ray, outward_normal: Vec3)
        ensures
            final(self)@ == oriented(old(self)@, ray@, outward_normal@),
            vdot(ray@.dir, final(self)@.normal) <= 0,
    {
        proof {
            lemma_oriented_normal_opposes(old(self)@, ray@, outward_normal@);
        }
        if ray.direction().dot(outward_normal).raw < 0 {
            self.normal = outward_normal;
            self.front_facing = true;
        } else {
            let flipped = outward_normal.neg();
            if ray.direction().dot(flipped).raw <= 0 {
                self.normal = flipped;
            } else {
                self.normal = Vec3::zero();
            }
            self.front_facing = false;
        }
    }
}

} // verus!
