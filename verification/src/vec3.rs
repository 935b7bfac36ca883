//! Three-component vectors over the fixed-point scalars.
//!
//! One vector type serves as point, direction and colour, as in the
//! renderer's data model.  Every executable operation is specified
//! exactly by a spec-level mirror over the mathematical model `V3`.
use crate::fixed::{fadd, fdiv, fmul, fneg, fsqrt, fsub, Fx, FX_SCALE};
use vstd::prelude::*;

verus! {

/// The mathematical model of a vector: three unbounded integers, each
/// standing for a fixed-point raw value.
pub ghost struct V3 {
    pub x: int,
    pub y: int,
    pub z: int,
}

/// Component-wise saturating addition.
pub open spec fn vadd(a: V3, b: V3) -> V3 {
    V3 { x: fadd(a.x, b.x), y: fadd(a.y, b.y), z: fadd(a.z, b.z) }
}

/// Component-wise saturating subtraction.
pub open spec fn vsub(a: V3, b: V3) -> V3 {
    V3 { x: fsub(a.x, b.x), y: fsub(a.y, b.y), z: fsub(a.z, b.z) }
}

/// Component-wise negation.
pub open spec fn vneg(a: V3) -> V3 {
    V3 { x: fneg(a.x), y: fneg(a.y), z: fneg(a.z) }
}

/// Scaling by a fixed-point scalar.
pub open spec fn vscale(a: V3, s: int) -> V3 {
    V3 { x: fmul(a.x, s), y: fmul(a.y, s), z: fmul(a.z, s) }
}

/// Component-wise product, used for colour attenuation.
pub open spec fn vcompmul(a: V3, b: V3) -> V3 {
    V3 { x: fmul(a.x, b.x), y: fmul(a.y, b.y), z: fmul(a.z, b.z) }
}

/// Component-wise division.
pub open spec fn vcompdiv(a: V3, b: V3) -> V3 {
    V3 { x: fdiv(a.x, b.x), y: fdiv(a.y, b.y), z: fdiv(a.z, b.z) }
}

/// Division by a scalar.
pub open spec fn vdiv_scalar(a: V3, s: int) -> V3 {
    V3 { x: fdiv(a.x, s), y: fdiv(a.y, s), z: fdiv(a.z, s) }
}

/// Dot product, summed left to right as the executable code does.
pub open spec fn vdot(a: V3, b: V3) -> int {
    fadd(fadd(fmul(a.x, b.x), fmul(a.y, b.y)), fmul(a.z, b.z))
}

/// Cross product.
pub open spec fn vcross(a: V3, b: V3) -> V3 {
    V3 {
        x: fsub(fmul(a.y, b.z), fmul(a.z, b.y)),
        y: fsub(fmul(a.z, b.x), fmul(a.x, b.z)),
        z: fsub(fmul(a.x, b.y), fmul(a.y, b.x)),
    }
}

/// Squared length.
pub open spec fn vlen_sq(a: V3) -> int {
    vdot(a, a)
}

/// Length: the fixed-point square root of the squared length.
pub open spec fn vlen(a: V3) -> int {
    fsqrt(vlen_sq(a))
}

/// Normalisation: each component divided by the length.  On a vector of
/// zero length the division saturates component-wise; callers guard.
pub open spec fn vunit(a: V3) -> V3 {
    V3 { x: fdiv(a.x, vlen(a)), y: fdiv(a.y, vlen(a)), z: fdiv(a.z, vlen(a)) }
}

/// A squared length is never negative.
pub proof fn lemma_vlen_sq_nonneg(v: V3)
    ensures
        vlen_sq(v) >= 0,
{
    crate::fixed::lemma_fmul_square_nonneg(v.x);
    crate::fixed::lemma_fmul_square_nonneg(v.y);
    crate::fixed::lemma_fmul_square_nonneg(v.z);
}

/// A three-component fixed-point vector; also used for points in space
/// and for colours (x, y, z as red, green, blue).
#[derive(Clone, Copy, Debug, PartialEq, Eq, Structural)]
pub struct Vec3 {
    pub x: Fx,
    pub y: Fx,
    pub z: Fx,
}

impl View for Vec3 {
    type V = V3;

    open spec fn view(&self) -> V3 {
        V3 { x: self.x@, y: self.y@, z: self.z@ }
    }
}

impl Vec3 {
    pub fn new(x: Fx, y: Fx, z: Fx) -> (r: Vec3)
        ensures
            r@ == (V3 { x: x@, y: y@, z: z@ }),
    {
        Vec3 { x, y, z }
    }

    pub fn zero() -> (r: Vec3)
        ensures
            r@ == (V3 { x: 0int, y: 0int, z: 0int }),
    {
        Vec3 { x: Fx { raw: 0 }, y: Fx { raw: 0 }, z: Fx { raw: 0 } }
    }

    pub fn one() -> (r: Vec3)
        ensures
            r@ == (V3 {
                x: FX_SCALE as int,
                y: FX_SCALE as int,
                z: FX_SCALE as int,
            }),
    {
        Vec3 { x: Fx { raw: FX_SCALE }, y: Fx { raw: FX_SCALE }, z: Fx { raw: FX_SCALE } }
    }

    pub fn add(self, o: Vec3) -> (r: Vec3)
        ensures
            r@ == vadd(self@, o@),
    {
        Vec3 { x: self.x.add(o.x), y: self.y.add(o.y), z: self.z.add(o.z) }
    }

    pub fn sub(self, o: Vec3) -> (r: Vec3)
        ensures
            r@ == vsub(self@, o@),
    {
        Vec3 { x: self.x.sub(o.x), y: self.y.sub(o.y), z: self.z.sub(o.z) }
    }

    pub fn neg(self) -> (r: Vec3)
        ensures
            r@ == vneg(self@),
    {
        Vec3 { x: self.x.neg(), y: self.y.neg(), z: self.z.neg() }
    }

    pub fn scale(self, s: Fx) -> (r: Vec3)
        ensures
            r@ == vscale(self@, s@),
    {
        Vec3 { x: self.x.mul(s), y: self.y.mul(s), z: self.z.mul(s) }
    }

    /// Component-wise product (colour attenuation).
    pub fn component_mul(self, o: Vec3) -> (r: Vec3)
        ensures
            r@ == vcompmul(self@, o@),
    {
        Vec3 { x: self.x.mul(o.x), y: self.y.mul(o.y), z: self.z.mul(o.z) }
    }

    /// Divide every component by a scalar.
    pub fn scale_div(self, s: Fx) -> (r: Vec3)
        ensures
            r@ == vdiv_scalar(self@, s@),
    {
        Vec3 { x: self.x.div(s), y: self.y.div(s), z: self.z.div(s) }
    }

    pub fn dot(self, o: Vec3) -> (r: Fx)
        ensures
            r@ == vdot(self@, o@),
    {
        self.x.mul(o.x).add(self.y.mul(o.y)).add(self.z.mul(o.z))
    }

    pub fn cross(self, o: Vec3) -> (r: Vec3)
        ensures
            r@ == vcross(self@, o@),
    {
        Vec3 {
            x: self.y.mul(o.z).sub(self.z.mul(o.y)),
            y: self.z.mul(o.x).sub(self.x.mul(o.z)),
            z: self.x.mul(o.y).sub(self.y.mul(o.x)),
        }
    }

    pub fn square_length(self) -> (r: Fx)
        ensures
            r@ == vlen_sq(self@),
    {
        self.dot(self)
    }

    pub fn length(self) -> (r: Fx)
        ensures
            r@ == vlen(self@),
    {
        self.square_length().sqrt()
    }

    /// Normalise; on a zero-length vector the component divisions
    /// saturate, and callers guard against that case.
    pub fn normalize(self) -> (r: Vec3)
        ensures
            r@ == vunit(self@),
    {
        let l = self.length();
        Vec3 { x: self.x.div(l), y: self.y.div(l), z: self.z.div(l) }
    }
}

} // verus!
