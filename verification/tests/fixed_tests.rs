use raytracer::fixed::{Fx, FX_SCALE};
use raytracer::frac::mandelbrot;

const ONE: i64 = FX_SCALE;

fn fx(raw: i64) -> Fx {
    Fx { raw }
}

#[test]
fn add_and_sub_are_exact_in_range() {
    assert_eq!(fx(3 * ONE).add(fx(4 * ONE)).raw, 7 * ONE);
    assert_eq!(fx(3 * ONE).sub(fx(4 * ONE)).raw, -ONE);
}

#[test]
fn add_saturates_at_the_extremes() {
    assert_eq!(fx(i64::MAX).add(fx(1)).raw, i64::MAX);
    assert_eq!(fx(i64::MIN).sub(fx(1)).raw, i64::MIN);
    assert_eq!(fx(i64::MIN).neg().raw, i64::MAX);
}

#[test]
fn mul_scales_and_truncates_toward_zero() {
    assert_eq!(fx(3 * ONE).mul(fx(4 * ONE)).raw, 12 * ONE);
    // 1/65536 * 1/65536 is far below one raw unit: truncated to zero.
    assert_eq!(fx(1).mul(fx(1)).raw, 0);
    assert_eq!(fx(-1).mul(fx(1)).raw, 0);
    // half times three: exact
    assert_eq!(fx(ONE / 2).mul(fx(3 * ONE)).raw, 3 * ONE / 2);
    // negative result truncates toward zero
    assert_eq!(fx(-3).mul(fx(ONE / 2)).raw, -1);
}

#[test]
fn div_is_exact_on_divisible_inputs() {
    assert_eq!(fx(12 * ONE).div(fx(4 * ONE)).raw, 3 * ONE);
    assert_eq!(fx(-12 * ONE).div(fx(4 * ONE)).raw, -3 * ONE);
    assert_eq!(fx(ONE).div(fx(3 * ONE)).raw, ONE / 3);
}

#[test]
fn div_by_zero_saturates() {
    assert_eq!(fx(5).div(fx(0)).raw, i64::MAX);
    assert_eq!(fx(-5).div(fx(0)).raw, i64::MIN);
    assert_eq!(fx(0).div(fx(0)).raw, i64::MAX);
}

#[test]
fn sqrt_of_perfect_squares_is_exact() {
    assert_eq!(fx(4 * ONE).sqrt().raw, 2 * ONE);
    assert_eq!(fx(9 * ONE).sqrt().raw, 3 * ONE);
    assert_eq!(fx(ONE).sqrt().raw, ONE);
    assert_eq!(fx(0).sqrt().raw, 0);
    assert_eq!(fx(-4 * ONE).sqrt().raw, 0);
}

#[test]
fn sqrt_rounds_down() {
    // sqrt(2) = 1.41421356...; floor(65536 * sqrt(2)) = 92681
    assert_eq!(fx(2 * ONE).sqrt().raw, 92681);
}

#[test]
fn powi_matches_repeated_multiplication() {
    let x = fx(3 * ONE);
    assert_eq!(x.powi(0).raw, ONE);
    assert_eq!(x.powi(1).raw, 3 * ONE);
    assert_eq!(x.powi(4).raw, 81 * ONE);
    // negative power is the reciprocal
    assert_eq!(fx(2 * ONE).powi(-1).raw, ONE / 2);
    assert_eq!(fx(2 * ONE).powi(-2).raw, ONE / 4);
}

#[test]
fn min_max_abs() {
    assert_eq!(fx(3).min(fx(-4)).raw, -4);
    assert_eq!(fx(3).max(fx(-4)).raw, 3);
    assert_eq!(fx(-4).abs().raw, 4);
    assert_eq!(fx(4).abs().raw, 4);
}

#[test]
fn from_int_scales() {
    assert_eq!(Fx::from_int(7).raw, 7 * ONE);
    assert_eq!(Fx::from_int(-7).raw, -7 * ONE);
    assert_eq!(Fx::one().raw, ONE);
    assert_eq!(Fx::zero().raw, 0);
}

#[test]
fn mandelbrot_origin_never_escapes() {
    let p = mandelbrot(fx(0), fx(0), 50);
    assert_eq!(p.iter, 50);
    assert_eq!(p.z.re.raw, 0);
    assert_eq!(p.z.im.raw, 0);
}

#[test]
fn mandelbrot_far_point_escapes_after_one_step() {
    // c = 2 + 2i: after one step z = c, whose squared norm is 8 >= 4.
    let p = mandelbrot(fx(2 * ONE), fx(2 * ONE), 50);
    assert_eq!(p.iter, 1);
    assert_eq!(p.z.re.raw, 2 * ONE);
    assert_eq!(p.z.im.raw, 2 * ONE);
}

#[test]
fn mandelbrot_respects_the_iteration_budget() {
    let p = mandelbrot(fx(0), fx(0), 0);
    assert_eq!(p.iter, 0);
}
