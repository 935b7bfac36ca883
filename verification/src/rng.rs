//! A deterministic, explicitly-seeded pseudo-random stream.
//!
//! The renderer owes a determinism guarantee: with the same seed per
//! pixel, sequential and parallel renders must produce bit-identical
//! buffers.  That is provable only if the stream itself is a pure
//! function of its seed, so the generator is defined here, in verified
//! code, as a mixing function over a 64-bit state.  Workers never share
//! a stream: each pixel derives its own state from the render seed and
//! the pixel coordinates.
use crate::fixed::{Fx, FX_SCALE};
use vstd::prelude::*;

verus! {

/// Addition modulo 2^64.
pub open spec fn wadd64(a: u64, b: u64) -> u64 {
    ((a + b) % 0x1_0000_0000_0000_0000) as u64
}

/// Multiplication modulo 2^64.
pub open spec fn wmul64(a: u64, b: u64) -> u64 {
    ((a * b) % 0x1_0000_0000_0000_0000) as u64
}

/// The output mixing function: xor-shifts and odd multipliers, a
/// bijection on 64-bit states with good avalanche behaviour.
pub open spec fn mix64(s: u64) -> u64 {
    let z0 = wmul64(s ^ (s >> 30), 0xbf58_476d_1ce4_e5b9);
    let z1 = wmul64(z0 ^ (z0 >> 27), 0x94d0_49bb_1331_11eb);
    z1 ^ (z1 >> 31)
}

/// State advance: a fixed odd increment.
pub open spec fn prng_step(s: u64) -> u64 {
    wadd64(s, 0x9e37_79b9_7f4a_7c15)
}

/// The value drawn from state `s`: mix of the advanced state.
pub open spec fn prng_out(s: u64) -> u64 {
    mix64(prng_step(s))
}

/// The state a pixel's stream starts from: the render seed folded with
/// the pixel coordinates.
pub open spec fn pixel_state(seed: u64, x: u64, y: u64) -> u64 {
    mix64(wadd64(mix64(wadd64(seed, y)), x))
}

/// A 16-bit draw in `[0, 1)` fixed point, taken from the top bits.
pub open spec fn unit_of(v: u64) -> int {
    (v >> 48) as int
}

/// The pseudo-random stream: a bare 64-bit state.
#[derive(Clone, Copy, Debug, PartialEq, Eq, Structural)]
pub struct Prng {
    pub s: u64,
}

impl View for Prng {
    type V = u64;

    open spec fn view(&self) -> u64 {
        self.s
    }
}

/// Exec counterpart of `wadd64`.
fn wrapping_add64(a: u64, b: u64) -> (r: u64)
    ensures
        r == wadd64(a, b),
{
    (((a as u128) + (b as u128)) % 0x1_0000_0000_0000_0000u128) as u64
}

/// Exec counterpart of `wmul64`.
fn wrapping_mul64(a: u64, b: u64) -> (r: u64)
    ensures
        r == wmul64(a, b),
{
    proof {
        assert((a as int) * (b as int) <= 0xffff_ffff_ffff_ffff * 0xffff_ffff_ffff_ffff)
            by (nonlinear_arith)
            requires
                0 <= a as int <= 0xffff_ffff_ffff_ffff,
                0 <= b as int <= 0xffff_ffff_ffff_ffff,
        ;
    }
    (((a as u128) * (b as u128)) % 0x1_0000_0000_0000_0000u128) as u64
}

/// Exec counterpart of `mix64`.
fn mix64_exec(s: u64) -> (r: u64)
    ensures
        r == mix64(s),
{
    let z0 = wrapping_mul64(s ^ (s >> 30), 0xbf58_476d_1ce4_e5b9);
    let z1 = wrapping_mul64(z0 ^ (z0 >> 27), 0x94d0_49bb_1331_11eb);
    z1 ^ (z1 >> 31)
}

impl Prng {
    /// The stream for one pixel of one render.
    pub fn seed_pixel(seed: u64, x: u64, y: u64) -> (r: Prng)
        ensures
            r@ == pixel_state(seed, x, y),
    {
        let s0 = mix64_exec(wrapping_add64(seed, y));
        let s1 = mix64_exec(wrapping_add64(s0, x));
        Prng { s: s1 }
    }

    /// Draw the next 64-bit value, advancing the state.
    pub fn next_u64(&mut self) -> (r: u64)
        ensures
            final(self)@ == prng_step(old(self)@),
            r == prng_out(old(self)@),
    {
        let ns = wrapping_add64(self.s, 0x9e37_79b9_7f4a_7c15);
        self.s = ns;
        mix64_exec(ns)
    }

    /// Draw a fixed-point value in `[0, 1)`.
    pub fn next_unit(&mut self) -> (r: Fx)
        ensures
            final(self)@ == prng_step(old(self)@),
            r@ == unit_of(prng_out(old(self)@)),
            0 <= r@ < FX_SCALE as int,
    {
        let v = self.next_u64();
        let t: u64 = v >> 48;
        proof {
            assert(t < 65536) by (bit_vector)
                requires
                    t == v >> 48,
            ;
        }
        Fx { raw: t as i64 }
    }

    /// Draw a fixed-point value in `[-1, 1)`.
    pub fn next_symmetric(&mut self) -> (r: Fx)
        ensures
            final(self)@ == prng_step(old(self)@),
            r@ == 2 * unit_of(prng_out(old(self)@)) - FX_SCALE as int,
            -(FX_SCALE as int) <= r@ < FX_SCALE as int,
    {
        let u = self.next_unit();
        Fx { raw: u.raw * 2 - FX_SCALE }
    }
}

} // verus!
