use oval_player::fixed::{
    clamp_fx, div_trunc, exp_neg_fx, mod_fx, mul_fx, mul_unit, sin_fx, smoothstep_fx, sqrt_fx,
    wave_fx, SCALE,
};

#[test]
fn mul_is_exact_on_round_values() {
    assert_eq!(mul_fx(2_500_000, 2_000_000), 5_000_000);
    assert_eq!(mul_fx(500_000, 500_000), 250_000);
    assert_eq!(mul_fx(-500_000, 500_000), -250_000);
    assert_eq!(mul_fx(0, 123_456), 0);
}

#[test]
fn mul_unit_stays_in_range() {
    assert_eq!(mul_unit(SCALE, SCALE), SCALE);
    assert_eq!(mul_unit(0, SCALE), 0);
    assert_eq!(mul_unit(250_000, 400_000), 100_000);
}

#[test]
fn division_truncates_toward_zero() {
    assert_eq!(div_trunc(7, 2), 3);
    assert_eq!(div_trunc(-7, 2), -3);
    assert_eq!(div_trunc(0, 5), 0);
}

#[test]
fn modulo_of_nonnegative_values() {
    assert_eq!(mod_fx(13, 5), 3);
    assert_eq!(mod_fx(0, 5), 0);
    assert_eq!(mod_fx(10, 5), 0);
}

#[test]
fn clamp_forces_into_interval() {
    assert_eq!(clamp_fx(5, 0, 10), 5);
    assert_eq!(clamp_fx(-5, 0, 10), 0);
    assert_eq!(clamp_fx(15, 0, 10), 10);
}

#[test]
fn smoothstep_endpoints_and_midpoint() {
    // Below the lower edge: zero. Above the upper edge: one.
    assert_eq!(smoothstep_fx(0, SCALE, -123), 0);
    assert_eq!(smoothstep_fx(0, SCALE, 0), 0);
    assert_eq!(smoothstep_fx(0, SCALE, SCALE), SCALE);
    assert_eq!(smoothstep_fx(0, SCALE, 2 * SCALE), SCALE);
    // The Hermite polynomial at the midpoint is exactly one half.
    assert_eq!(smoothstep_fx(0, SCALE, 500_000), 500_000);
}

#[test]
fn sine_at_zero_and_within_unit_range() {
    assert_eq!(sin_fx(0), 0);
    // One quarter period: close to one.
    let quarter = sin_fx(1_570_796);
    assert!(quarter > 990_000 && quarter <= SCALE);
    // Three quarter periods: close to minus one.
    let three_quarters = sin_fx(4_712_389);
    assert!(three_quarters < -990_000 && three_quarters >= -SCALE);
    // A negative argument mirrors the positive one into the period.
    for x in [-9_000_000i64, -31_415, 0, 27_182_818, 3_141_593] {
        let s = sin_fx(x);
        assert!(-SCALE <= s && s <= SCALE);
    }
}

#[test]
fn wave_shifts_sine_into_unit_range() {
    assert_eq!(wave_fx(0), 500_000);
    for x in [-5_000_000i64, 1, 777_777, 123_456_789] {
        let w = wave_fx(x);
        assert!(0 <= w && w <= SCALE);
    }
}

#[test]
fn square_roots_of_round_values() {
    assert_eq!(sqrt_fx(0), 0);
    assert_eq!(sqrt_fx(SCALE), SCALE);
    assert_eq!(sqrt_fx(4_000_000), 2_000_000);
    assert_eq!(sqrt_fx(250_000), 500_000);
    // sqrt(2.0): the floor of 1.414213562...
    assert_eq!(sqrt_fx(2_000_000), 1_414_213);
}

#[test]
fn exp_decay_from_one_to_zero() {
    assert_eq!(exp_neg_fx(0), SCALE);
    // Large arguments flush to exactly zero.
    assert_eq!(exp_neg_fx(14_000_000), 0);
    assert_eq!(exp_neg_fx(2_000_000_000), 0);
    // exp(-1) is about 0.368; the series keeps three figures.
    let e1 = exp_neg_fx(SCALE);
    assert!(e1 > 360_000 && e1 < 375_000);
    // Monotone on a few sample points.
    let a = exp_neg_fx(100_000);
    let b = exp_neg_fx(1_000_000);
    let c = exp_neg_fx(5_000_000);
    assert!(SCALE >= a && a > b && b > c && c >= 0);
}
