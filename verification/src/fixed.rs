//! Saturating 16.16 fixed-point scalars.
//!
//! A scalar is an `i64` holding a real value scaled by 2^16.  Every
//! operation is total: results that would leave the representable range
//! are clamped to it, the fixed-point analogue of the floating-point
//! infinities, and a division by zero yields the clamped value of the
//! appropriate sign.  Each executable operation is specified exactly by
//! a spec-level mirror over `int`, so that whole computations built from
//! these scalars are themselves pinned down value by value.
use vstd::prelude::*;

verus! {

/// Scale factor: one in fixed point.
pub const FX_SCALE: i64 = 65536;

pub const I64_MAX: i64 = i64::MAX;
pub const I64_MIN: i64 = i64::MIN;

/// Absolute value over `int`.
pub open spec fn iabs(x: int) -> int {
    if x < 0 { -x } else { x }
}

/// Division truncating toward zero, as machine division does; division
/// by zero is zero here (the callers special-case it).
pub open spec fn tdiv(a: int, b: int) -> int {
    if b == 0 {
        0
    } else if (a < 0) == (b < 0) {
        iabs(a) / iabs(b)
    } else {
        -(iabs(a) / iabs(b))
    }
}

/// Clamp to the `i64` range.
pub open spec fn sat64(x: int) -> int {
    if x > I64_MAX as int {
        I64_MAX as int
    } else if x < I64_MIN as int {
        I64_MIN as int
    } else {
        x
    }
}

/// Saturating fixed-point addition.
pub open spec fn fadd(a: int, b: int) -> int {
    sat64(a + b)
}

/// Saturating fixed-point subtraction.
pub open spec fn fsub(a: int, b: int) -> int {
    sat64(a - b)
}

/// Saturating fixed-point negation.
pub open spec fn fneg(a: int) -> int {
    sat64(-a)
}

/// Saturating fixed-point multiplication: the double-width product,
/// rescaled with truncation toward zero.
pub open spec fn fmul(a: int, b: int) -> int {
    sat64(tdiv(a * b, FX_SCALE as int))
}

/// Saturating fixed-point division.  A zero divisor saturates with the
/// sign of the dividend.
pub open spec fn fdiv(a: int, b: int) -> int {
    if b == 0 {
        if a > 0 {
            I64_MAX as int
        } else if a < 0 {
            I64_MIN as int
        } else {
            0
        }
    } else {
        sat64(tdiv(a * FX_SCALE, b))
    }
}

/// `r` is the integer square root of `n`, rounded down.
pub open spec fn is_sqrt_floor(n: int, r: int) -> bool {
    0 <= r && r * r <= n && n < (r + 1) * (r + 1)
}

/// The integer square root of `n`, rounded down (0 for negative `n`).
pub open spec fn sqrt_floor(n: int) -> int {
    choose|r: int| is_sqrt_floor(n, r)
}

/// Fixed-point square root: the floor square root of the value scaled
/// back up, so that `fsqrt(a) / 2^16` approximates the real root of
/// `a / 2^16` from below.  Non-positive inputs yield zero.
pub open spec fn fsqrt(a: int) -> int {
    if a <= 0 {
        0
    } else {
        sqrt_floor(a * FX_SCALE)
    }
}

/// The floor square root is unique, so `sqrt_floor` is exactly the
/// witness that `is_sqrt_floor` describes.
pub proof fn lemma_sqrt_floor_unique(n: int, r: int)
    requires
        is_sqrt_floor(n, r),
    ensures
        sqrt_floor(n) == r,
{
    let r2 = sqrt_floor(n);
    assert(is_sqrt_floor(n, r2));
    assert forall|p: int, q: int| 0 <= p && p < q implies #[trigger] (p * p) < #[trigger] (q * q) by {
        assert(p * p < q * q) by (nonlinear_arith)
            requires
                0 <= p,
                p < q,
        ;
    }
    if r2 < r {
        assert(r2 + 1 <= r);
        assert((r2 + 1) * (r2 + 1) <= r * r || r2 + 1 == r);
    }
    if r < r2 {
        assert((r + 1) * (r + 1) <= r2 * r2 || r + 1 == r2);
    }
}

/// Every nonnegative integer has a floor square root.
pub proof fn lemma_sqrt_floor_exists(n: int)
    requires
        n >= 0,
    ensures
        is_sqrt_floor(n, sqrt_floor(n)),
    decreases n,
{
    if n == 0 {
        assert(is_sqrt_floor(0, 0));
    } else {
        lemma_sqrt_floor_exists(n - 1);
        let r = sqrt_floor(n - 1);
        if n < (r + 1) * (r + 1) {
            assert(is_sqrt_floor(n, r));
        } else {
            assert((r + 1) * (r + 1) <= n < (r + 2) * (r + 2)) by (nonlinear_arith)
                requires
                    is_sqrt_floor(n - 1, r),
                    (r + 1) * (r + 1) <= n,
            ;
            assert(is_sqrt_floor(n, r + 1));
        }
    }
    assert(exists|r: int| is_sqrt_floor(n, r));
}

/// The fixed-point square root is never negative.
pub proof fn lemma_fsqrt_nonneg(a: int)
    ensures
        fsqrt(a) >= 0,
{
    if a > 0 {
        lemma_sqrt_floor_exists(a * FX_SCALE);
    }
}

/// A fixed-point square is never negative.
pub proof fn lemma_fmul_square_nonneg(x: int)
    ensures
        fmul(x, x) >= 0,
{
    assert(x * x >= 0) by (nonlinear_arith);
    lemma_tdiv_nonneg(x * x, FX_SCALE as int);
}

/// Truncated division of a nonnegative value by a positive one is
/// nonnegative.
pub proof fn lemma_tdiv_nonneg(x: int, d: int)
    requires
        x >= 0,
        d > 0,
    ensures
        tdiv(x, d) >= 0,
{
    vstd::arithmetic::div_mod::lemma_div_of0(d);
    vstd::arithmetic::div_mod::lemma_div_is_ordered(0, x, d);
}

/// Truncated division is monotone in the dividend for a positive
/// divisor.
pub proof fn lemma_tdiv_monotone(x1: int, x2: int, d: int)
    requires
        x1 <= x2,
        d > 0,
    ensures
        tdiv(x1, d) <= tdiv(x2, d),
{
    if x1 >= 0 {
        vstd::arithmetic::div_mod::lemma_div_is_ordered(x1, x2, d);
    } else if x2 < 0 {
        vstd::arithmetic::div_mod::lemma_div_is_ordered(-x2, -x1, d);
    } else {
        lemma_tdiv_nonneg(-x1, d);
        lemma_tdiv_nonneg(x2, d);
    }
}

/// Saturating fixed-point division is monotone in the dividend for a
/// nonnegative divisor.
pub proof fn lemma_fdiv_monotone(x1: int, x2: int, d: int)
    requires
        x1 <= x2,
        d >= 0,
    ensures
        fdiv(x1, d) <= fdiv(x2, d),
{
    if d > 0 {
        lemma_tdiv_monotone(x1 * FX_SCALE, x2 * FX_SCALE, d);
    }
}

/// Multiplying by a factor in `[0, 1]` contracts: the product of a
/// factor in `[0, 1]` with a nonnegative value is nonnegative and at
/// most that value.
pub proof fn lemma_fmul_unit_bounded(a: int, b: int)
    requires
        0 <= a <= FX_SCALE as int,
        0 <= b,
    ensures
        0 <= fmul(a, b) <= b,
{
    assert(0 <= a * b && a * b <= (FX_SCALE as int) * b) by (nonlinear_arith)
        requires
            0 <= a <= FX_SCALE as int,
            0 <= b,
    ;
    lemma_tdiv_nonneg(a * b, FX_SCALE as int);
    lemma_tdiv_monotone(a * b, (FX_SCALE as int) * b, FX_SCALE as int);
    vstd::arithmetic::div_mod::lemma_div_multiples_vanish(b, FX_SCALE as int);
}

/// Rescaling a nonnegative product keeps it nonnegative.
pub proof fn lemma_fmul_nonneg(a: int, b: int)
    requires
        a * b >= 0,
    ensures
        fmul(a, b) >= 0,
{
    lemma_tdiv_nonneg(a * b, FX_SCALE as int);
}

/// Division by a positive divisor keeps the dividend's sign.
pub proof fn lemma_fdiv_sign(x: int, d: int)
    requires
        d > 0,
    ensures
        x >= 0 ==> fdiv(x, d) >= 0,
        x <= 0 ==> fdiv(x, d) <= 0,
{
    if x >= 0 {
        lemma_tdiv_nonneg(x * FX_SCALE, d);
    } else {
        lemma_tdiv_nonneg(iabs(x * FX_SCALE), d);
    }
}

/// A 16.16 fixed-point number; `raw` is the real value times 2^16.
#[derive(Clone, Copy, Debug, PartialEq, Eq, Structural)]
pub struct Fx {
    pub raw: i64,
}

impl View for Fx {
    type V = int;

    open spec fn view(&self) -> int {
        self.raw as int
    }
}

impl Fx {
    /// Zero.
    pub fn zero() -> (r: Fx)
        ensures
            r@ == 0,
    {
        Fx { raw: 0 }
    }

    /// One (the scale factor itself).
    pub fn one() -> (r: Fx)
        ensures
            r@ == FX_SCALE as int,
    {
        Fx { raw: FX_SCALE }
    }

    /// The fixed-point value of a small integer.
    pub fn from_int(v: i16) -> (r: Fx)
        ensures
            r@ == v as int * FX_SCALE as int,
    {
        Fx { raw: (v as i64) * FX_SCALE }
    }

    /// Saturating addition.
    pub fn add(self, o: Fx) -> (r: Fx)
        ensures
            r@ == fadd(self@, o@),
    {
        let s: i128 = self.raw as i128 + o.raw as i128;
        if s > I64_MAX as i128 {
            Fx { raw: I64_MAX }
        } else if s < I64_MIN as i128 {
            Fx { raw: I64_MIN }
        } else {
            Fx { raw: s as i64 }
        }
    }

    /// Saturating subtraction.
    pub fn sub(self, o: Fx) -> (r: Fx)
        ensures
            r@ == fsub(self@, o@),
    {
        let s: i128 = self.raw as i128 - o.raw as i128;
        if s > I64_MAX as i128 {
            Fx { raw: I64_MAX }
        } else if s < I64_MIN as i128 {
            Fx { raw: I64_MIN }
        } else {
            Fx { raw: s as i64 }
        }
    }

    /// Saturating negation.
    pub fn neg(self) -> (r: Fx)
        ensures
            r@ == fneg(self@),
    {
        if self.raw == I64_MIN {
            Fx { raw: I64_MAX }
        } else {
            Fx { raw: -self.raw }
        }
    }

    /// Saturating multiplication.
    pub fn mul(self, o: Fx) -> (r: Fx)
        ensures
            r@ == fmul(self@, o@),
    {
        proof {
            lemma_mul_abs_bound(self@, o@, 0x8000_0000_0000_0000, 0x8000_0000_0000_0000);
        }
        let p: i128 = (self.raw as i128) * (o.raw as i128);
        let neg: bool = p < 0;
        let m: u128 = if neg {
            (-p) as u128
        } else {
            p as u128
        };
        proof {
            assert(m == iabs(self@ * o@));
        }
        let q: u128 = m / 65536;
        proof {
            assert(q == iabs(self@ * o@) / (FX_SCALE as int));
            lemma_abs_div_is_tdiv(self@ * o@, neg, q as int);
        }
        if neg {
            if q > 0x8000_0000_0000_0000u128 {
                Fx { raw: I64_MIN }
            } else {
                Fx { raw: (-(q as i128)) as i64 }
            }
        } else {
            if q > 0x7fff_ffff_ffff_ffffu128 {
                Fx { raw: I64_MAX }
            } else {
                Fx { raw: q as i64 }
            }
        }
    }

    /// Saturating division.
    pub fn div(self, o: Fx) -> (r: Fx)
        ensures
            r@ == fdiv(self@, o@),
    {
        if o.raw == 0 {
            if self.raw > 0 {
                Fx { raw: I64_MAX }
            } else if self.raw < 0 {
                Fx { raw: I64_MIN }
            } else {
                Fx { raw: 0 }
            }
        } else {
            let ma: u128 = if self.raw < 0 {
                (-(self.raw as i128)) as u128
            } else {
                self.raw as u128
            };
            let mb: u128 = if o.raw < 0 {
                (-(o.raw as i128)) as u128
            } else {
                o.raw as u128
            };
            let num: u128 = ma * 65536;
            let q: u128 = num / mb;
            let neg: bool = (self.raw < 0) != (o.raw < 0);
            proof {
                assert(ma == iabs(self@));
                assert(mb == iabs(o@));
                assert(num == iabs(self@ * FX_SCALE)) by {
                    assert(iabs(self@) * (FX_SCALE as int) == iabs(self@ * FX_SCALE))
                        by (nonlinear_arith);
                }
                assert(q == iabs(self@ * FX_SCALE) / iabs(o@ as int));
                lemma_abs_div_is_tdiv_signed(self@ * FX_SCALE, o@, neg, q as int);
            }
            if neg {
                if q > 0x8000_0000_0000_0000u128 {
                    Fx { raw: I64_MIN }
                } else {
                    Fx { raw: (-(q as i128)) as i64 }
                }
            } else {
                if q > 0x7fff_ffff_ffff_ffffu128 {
                    Fx { raw: I64_MAX }
                } else {
                    Fx { raw: q as i64 }
                }
            }
        }
    }

    /// Saturating absolute value.
    pub fn abs(self) -> (r: Fx)
        ensures
            r@ == sat64(iabs(self@)),
    {
        if self.raw < 0 {
            self.neg()
        } else {
            self
        }
    }

    /// The smaller of two values.
    pub fn min(self, o: Fx) -> (r: Fx)
        ensures
            r@ == if self@ <= o@ { self@ } else { o@ },
    {
        if self.raw <= o.raw {
            self
        } else {
            o
        }
    }

    /// Fixed-point square root, rounded down; zero on non-positive input.
    pub fn sqrt(self) -> (r: Fx)
        ensures
            r@ == fsqrt(self@),
    {
        if self.raw <= 0 {
            Fx { raw: 0 }
        } else {
            let n: u128 = (self.raw as u128) * 65536;
            let s: u64 = isqrt(n);
            proof {
                lemma_sqrt_floor_unique(n as int, s as int);
                assert(s as int <= 0x100_0000_0000) by {
                    if s as int > 0x100_0000_0000 {
                        assert(0x100_0000_0000 * 0x100_0000_0000 <= (s as int) * (s as int))
                            by (nonlinear_arith)
                            requires
                                0x100_0000_0000 <= s as int,
                        ;
                    }
                }
            }
            Fx { raw: s as i64 }
        }
    }
}

/// A bound on each factor bounds the product.
pub proof fn lemma_mul_abs_bound(a: int, b: int, ca: int, cb: int)
    requires
        iabs(a) <= ca,
        iabs(b) <= cb,
    ensures
        iabs(a * b) <= ca * cb,
{
    assert(iabs(a * b) <= ca * cb) by (nonlinear_arith)
        requires
            iabs(a) <= ca,
            iabs(b) <= cb,
    ;
}

/// Truncated division of `x` by the scale, written as a division of
/// magnitudes plus a sign, is `tdiv`.
proof fn lemma_abs_div_is_tdiv(x: int, neg: bool, q: int)
    requires
        neg == (x < 0),
        q == iabs(x) / (FX_SCALE as int),
    ensures
        tdiv(x, FX_SCALE as int) == if neg {
            -q
        } else {
            q
        },
{
}

/// The same fact for an arbitrary nonzero divisor.
proof fn lemma_abs_div_is_tdiv_signed(x: int, y: int, neg: bool, q: int)
    requires
        y != 0,
        neg == ((x < 0) != (y < 0)),
        q == iabs(x) / iabs(y),
    ensures
        tdiv(x, y) == if neg {
            -q
        } else {
            q
        },
{
    if x == 0 {
        assert(iabs(0int) / iabs(y) == 0) by {
            assert(0int / iabs(y) == 0);
        }
    }
}

/// Integer square root by binary search.
pub fn isqrt(n: u128) -> (r: u64)
    requires
        n < 0x1_0000_0000_0000_0000_0000u128,
    ensures
        is_sqrt_floor(n as int, r as int),
{
    let mut lo: u64 = 0;
    let mut hi: u64 = 0x100_0000_0000;
    proof {
        assert((0x100_0000_0000 as int) * (0x100_0000_0000 as int) > n as int);
    }
    while hi - lo > 1
        invariant
            lo < hi,
            hi <= 0x100_0000_0000,
            (lo as int) * (lo as int) <= n as int,
            (n as int) < (hi as int) * (hi as int),
        decreases hi - lo,
    {
        let mid: u64 = lo + (hi - lo) / 2;
        proof {
            assert((mid as int) * (mid as int) <= 0x100_0000_0000 * 0x100_0000_0000)
                by (nonlinear_arith)
                requires
                    0 <= mid as int <= 0x100_0000_0000,
            ;
        }
        let sq: u128 = (mid as u128) * (mid as u128);
        if sq <= n {
            lo = mid;
        } else {
            hi = mid;
        }
    }
    proof {
        assert(hi == lo + 1);
    }
    lo
}

} // verus!
