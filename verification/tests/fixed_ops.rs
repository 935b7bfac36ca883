use raytracer::fixed::{isqrt, Fx, FX_SCALE, I64_MAX, I64_MIN};

fn fx(raw: i64) -> Fx {
    Fx { raw }
}

#[test]
fn add_and_sub_are_exact_in_range() {
    assert_eq!(fx(3 * FX_SCALE).add(fx(2 * FX_SCALE)), fx(5 * FX_SCALE));
    assert_eq!(fx(3 * FX_SCALE).sub(fx(5 * FX_SCALE)), fx(-2 * FX_SCALE));
}

#[test]
fn add_saturates_at_the_ends() {
    assert_eq!(fx(I64_MAX).add(fx(1)), fx(I64_MAX));
    assert_eq!(fx(I64_MIN).sub(fx(1)), fx(I64_MIN));
    assert_eq!(fx(I64_MIN).neg(), fx(I64_MAX));
}

#[test]
fn mul_rescales_exactly() {
    assert_eq!(fx(3 * FX_SCALE).mul(fx(2 * FX_SCALE)), fx(6 * FX_SCALE));
    // 0.5 * 0.5 == 0.25
    assert_eq!(fx(32768).mul(fx(32768)), fx(16384));
    // signs follow truncation toward zero
    assert_eq!(fx(-32768).mul(fx(32768)), fx(-16384));
    assert_eq!(fx(-3).mul(fx(3)), fx(0));
}

#[test]
fn mul_saturates() {
    assert_eq!(fx(I64_MAX).mul(fx(I64_MAX)), fx(I64_MAX));
    assert_eq!(fx(I64_MAX).mul(fx(I64_MIN)), fx(I64_MIN));
}

#[test]
fn div_rescales_exactly() {
    assert_eq!(fx(FX_SCALE).div(fx(4 * FX_SCALE)), fx(16384));
    assert_eq!(fx(-FX_SCALE).div(fx(4 * FX_SCALE)), fx(-16384));
    assert_eq!(fx(6 * FX_SCALE).div(fx(-2 * FX_SCALE)), fx(-3 * FX_SCALE));
}

#[test]
fn div_by_zero_saturates_with_the_dividend_sign() {
    assert_eq!(fx(5).div(fx(0)), fx(I64_MAX));
    assert_eq!(fx(-5).div(fx(0)), fx(I64_MIN));
    assert_eq!(fx(0).div(fx(0)), fx(0));
}

#[test]
fn sqrt_is_the_floor_root() {
    assert_eq!(fx(4 * FX_SCALE).sqrt(), fx(2 * FX_SCALE));
    assert_eq!(fx(16384).sqrt(), fx(32768));
    // sqrt(2) rounded down at 16.16 precision
    assert_eq!(fx(2 * FX_SCALE).sqrt(), fx(92681));
    assert_eq!(fx(0).sqrt(), fx(0));
    assert_eq!(fx(-7).sqrt(), fx(0));
}

#[test]
fn isqrt_brackets_its_input() {
    for n in [0u128, 1, 2, 3, 4, 15, 16, 17, 1 << 40, (1 << 40) + 12345] {
        let r = isqrt(n) as u128;
        assert!(r * r <= n);
        assert!(n < (r + 1) * (r + 1));
    }
}

#[test]
fn from_int_scales_up() {
    assert_eq!(Fx::from_int(3), fx(3 * FX_SCALE));
    assert_eq!(Fx::from_int(-2), fx(-2 * FX_SCALE));
    assert_eq!(Fx::zero(), fx(0));
    assert_eq!(Fx::one(), fx(FX_SCALE));
}

#[test]
fn min_and_abs() {
    assert_eq!(fx(3).min(fx(-4)), fx(-4));
    assert_eq!(fx(-3).abs(), fx(3));
    assert_eq!(fx(I64_MIN).abs(), fx(I64_MAX));
}
