use asteroid_physics::fxmath::{fx_abs_exec, fx_clamp, fx_div, fx_mul, isqrt_ceil, FX_ONE};
use asteroid_physics::rot2::Rot2;
use asteroid_physics::vec2::Vec2;

#[test]
fn fixed_product_rescales() {
    assert_eq!(fx_mul(15_000, 15_000), 22_500);
    assert_eq!(fx_mul(-15_000, 15_000), -22_500);
    assert_eq!(fx_mul(15_000, -15_000), -22_500);
    assert_eq!(fx_mul(-15_000, -15_000), 22_500);
    assert_eq!(fx_mul(FX_ONE, 123_456), 123_456);
}

#[test]
fn fixed_product_truncates_toward_zero() {
    assert_eq!(fx_mul(1, 9_999), 0);
    assert_eq!(fx_mul(-1, 9_999), 0);
    assert_eq!(fx_mul(3, 9_999), 2);
    assert_eq!(fx_mul(-3, 9_999), -2);
}

#[test]
fn fixed_division_truncates_toward_zero() {
    assert_eq!(fx_div(7, 2), 3);
    assert_eq!(fx_div(-7, 2), -3);
    assert_eq!(fx_div(0, 5), 0);
}

#[test]
fn clamp_and_abs() {
    assert_eq!(fx_clamp(5, -3, 3), 3);
    assert_eq!(fx_clamp(-5, -3, 3), -3);
    assert_eq!(fx_clamp(2, -3, 3), 2);
    assert_eq!(fx_abs_exec(-17), 17);
    assert_eq!(fx_abs_exec(17), 17);
}

#[test]
fn square_root_rounds_up() {
    assert_eq!(isqrt_ceil(0), 0);
    assert_eq!(isqrt_ceil(1), 1);
    assert_eq!(isqrt_ceil(2), 2);
    assert_eq!(isqrt_ceil(4), 2);
    assert_eq!(isqrt_ceil(5), 3);
    assert_eq!(isqrt_ceil(250_000_000_000), 500_000);
    assert_eq!(isqrt_ceil(250_000_000_001), 500_001);
}

#[test]
fn vector_componentwise_operations() {
    let a = Vec2::new(30, -40);
    let b = Vec2::new(12, 8);
    assert_eq!(a.add(b), Vec2::new(42, -32));
    assert_eq!(a.sub(b), Vec2::new(18, -48));
    assert_eq!(a.scale(5_000), Vec2::new(15, -20));
    assert_eq!(a.length_squared(), 2_500);
}

#[test]
fn rotation_composition_commutes() {
    let a = Rot2::from_angle(7_854);
    let b = Rot2::from_angle(3_000);
    assert_eq!(a.mul(b), b.mul(a));
    assert_eq!(a.mul(Rot2::identity()), a);
    assert_eq!(a.inverse().sin, -a.sin);
    assert_eq!(a.inverse().cos, a.cos);
}
