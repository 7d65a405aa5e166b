use blackhole::fixed::{Fx, FX_MAX, SCALE};

#[test]
fn add_and_sub_are_exact_in_range() {
    let a = Fx::from_int(3);
    let b = Fx::from_int(5);
    assert_eq!(a.add(b).v, 8 * SCALE);
    assert_eq!(a.sub(b).v, -2 * SCALE);
    assert_eq!(b.neg().v, -5 * SCALE);
}

#[test]
fn add_saturates_at_the_range_bound() {
    let big = Fx::from_raw(FX_MAX);
    assert_eq!(big.add(big).v, FX_MAX);
    assert_eq!(big.neg().add(big.neg()).v, -FX_MAX);
}

#[test]
fn mul_is_exact_on_integers() {
    let a = Fx::from_int(7);
    let b = Fx::from_int(-6);
    assert_eq!(a.mul(b).v, -42 * SCALE);
    assert_eq!(Fx::zero().mul(b).v, 0);
    assert_eq!(Fx::one().mul(b).v, -6 * SCALE);
}

#[test]
fn mul_rounds_toward_zero() {
    // 1/3 in fixed point is 21845/65536; times 3 it falls one unit short of one
    let third = Fx::from_ratio(1, 3);
    assert_eq!(third.v, 21845);
    assert_eq!(third.mul(Fx::from_int(3)).v, 65535);
    let neg_third = Fx::from_ratio(-1, 3);
    assert_eq!(neg_third.v, -21845);
    assert_eq!(neg_third.mul(Fx::from_int(3)).v, -65535);
}

#[test]
fn div_matches_ratio() {
    assert_eq!(Fx::from_int(3).div(Fx::from_int(10)).v, 19660);
    assert_eq!(Fx::from_ratio(3, 10).v, 19660);
    assert_eq!(Fx::from_int(-3).div(Fx::from_int(10)).v, -19660);
}

#[test]
fn sqrt_exact_values() {
    assert_eq!(Fx::from_int(4).sqrt().v, 2 * SCALE);
    assert_eq!(Fx::from_int(2).sqrt().v, 92681);
    assert_eq!(Fx::zero().sqrt().v, 0);
    assert_eq!(Fx::one().sqrt().v, SCALE);
}

#[test]
fn half_rounds_toward_zero() {
    assert_eq!(Fx::from_raw(5).half().v, 2);
    assert_eq!(Fx::from_raw(-5).half().v, -2);
}

#[test]
fn saturate_clamps_to_unit_interval() {
    assert_eq!(Fx::from_int(3).saturate().v, SCALE);
    assert_eq!(Fx::from_int(-3).saturate().v, 0);
    assert_eq!(Fx::from_raw(1234).saturate().v, 1234);
}

#[test]
fn min_max_order() {
    let a = Fx::from_int(2);
    let b = Fx::from_int(-2);
    assert_eq!(a.min(b).v, b.v);
    assert_eq!(a.max(b).v, a.v);
}
