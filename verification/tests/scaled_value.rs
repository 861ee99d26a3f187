use sep2_bridge::ScaledValue;

#[test]
fn rescale_identity() {
    let value = ScaledValue::new(2450u16, -2);
    assert_eq!(value.rescale(-2), value);
}

#[test]
fn rescale_sets_the_target_sf() {
    assert_eq!(ScaledValue::new(2450u16, -2).rescale(0).sf, 0);
    assert_eq!(ScaledValue::new(2450u16, -2).rescale(-4).sf, -4);
}

#[test]
fn rescale_down_rounds_to_nearest() {
    // Exact conversions are unaffected by the rounding.
    assert_eq!(ScaledValue::new(2400u16, -2).rescale(0).value, 24);
    assert_eq!(ScaledValue::new(2450u16, -2).rescale(-1).value, 245);

    // Otherwise the nearest value wins, rather than always rounding down.
    assert_eq!(ScaledValue::new(2449u16, -2).rescale(0).value, 24);
    assert_eq!(ScaledValue::new(2451u16, -2).rescale(0).value, 25);
    assert_eq!(ScaledValue::new(2499u16, -2).rescale(0).value, 25);
}

#[test]
fn rescale_rounds_a_half_step_away_from_zero() {
    assert_eq!(ScaledValue::new(2450u16, -2).rescale(0).value, 25);
    assert_eq!(ScaledValue::new(2550u16, -2).rescale(0).value, 26);
    assert_eq!(ScaledValue::new(-2450i16, -2).rescale(0).value, -25);
    assert_eq!(ScaledValue::new(-2550i16, -2).rescale(0).value, -26);
}

#[test]
fn rescale_up() {
    assert_eq!(ScaledValue::new(24u16, 0).rescale(-2).value, 2400);
    assert_eq!(ScaledValue::new(51u32, -2).rescale(-3).value, 510);
}

#[test]
fn rescale_saturates_rather_than_wrapping() {
    // 70_000 exceeds u16.
    assert_eq!(ScaledValue::new(700u16, 0).rescale(-2).value, u16::MAX);
    assert_eq!(ScaledValue::new(700i16, 0).rescale(-2).value, i16::MAX);
    assert_eq!(ScaledValue::new(-700i16, 0).rescale(-2).value, i16::MIN);
}

#[test]
fn rescale_negative_values() {
    assert_eq!(ScaledValue::new(-2500i16, -2).rescale(0).value, -25);
    assert_eq!(ScaledValue::new(-2550i16, -2).rescale(-1).value, -255);
    assert_eq!(ScaledValue::new(-2549i16, -2).rescale(-1).value, -255);
    assert_eq!(ScaledValue::new(-24i16, -1).rescale(0).value, -2);
}

#[test]
fn rescale_handles_an_exponent_too_large_for_the_type() {
    // 10^10 does not fit in a u16. Dividing by it must give zero, not
    // divide by a saturated factor, and multiplying must saturate.
    assert_eq!(ScaledValue::new(5u16, -5).rescale(5).value, 0);
    assert_eq!(ScaledValue::new(5u16, 5).rescale(-5).value, u16::MAX);
    assert_eq!(ScaledValue::new(0u16, 5).rescale(-5).value, 0);
    assert_eq!(ScaledValue::new(-5i16, 5).rescale(-5).value, i16::MIN);
}

#[test]
fn rescale_up_then_down_round_trips() {
    for value in [0u16, 1, 7, 99, 100, 654, u16::MAX / 100] {
        let original = ScaledValue::new(value, 0);
        assert_eq!(original.rescale(-2).rescale(0), original);
    }
}

#[test]
fn rescale_always_reaches_the_target_sf() {
    for from in -6i16..6 {
        for to in -6i16..6 {
            assert_eq!(ScaledValue::new(1234u16, from).rescale(to).sf, to);
        }
    }
}

#[test]
fn rescale_extreme_scale_factor_differences() {
    // Differences far beyond any power of ten an i64 can hold.
    assert_eq!(ScaledValue::new(i32::MAX, i16::MIN).rescale(i16::MAX).value, 0);
    assert_eq!(ScaledValue::new(i32::MIN, i16::MIN).rescale(i16::MAX).value, 0);
    assert_eq!(ScaledValue::new(1i32, i16::MAX).rescale(i16::MIN).value, i32::MAX);
    assert_eq!(ScaledValue::new(-1i32, i16::MAX).rescale(i16::MIN).value, i32::MIN);
    assert_eq!(ScaledValue::new(u32::MAX, 0).rescale(1).value, 429_496_730);
}
