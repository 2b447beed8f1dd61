use pong2::fixed::{
    fx_abs, fx_add, fx_clamp, fx_div, fx_from_channel, fx_length, fx_lerp, fx_mul, fx_neg,
    fx_signed_like, fx_sqrt, fx_steepen, fx_sub, fx_to_channel, ONE,
};

#[test]
fn product_of_halves_is_a_quarter() {
    assert_eq!(fx_mul(ONE / 2, ONE / 2), ONE / 4);
}

#[test]
fn product_rounds_toward_zero() {
    assert_eq!(fx_mul(1, ONE / 2), 0);
    assert_eq!(fx_mul(-1, ONE / 2), 0);
    assert_eq!(fx_mul(3, ONE / 2), 1);
    assert_eq!(fx_mul(-3, ONE / 2), -1);
}

#[test]
fn product_stops_at_the_ends() {
    assert_eq!(fx_mul(i64::MAX, 2 * ONE), i64::MAX);
    assert_eq!(fx_mul(i64::MAX, -2 * ONE), i64::MIN);
    assert_eq!(fx_mul(i64::MIN, i64::MIN), i64::MAX);
}

#[test]
fn quotient_rounds_toward_zero() {
    assert_eq!(fx_div(ONE, 3 * ONE), 333_333);
    assert_eq!(fx_div(-ONE, 3 * ONE), -333_333);
    assert_eq!(fx_div(ONE, -3 * ONE), -333_333);
    assert_eq!(fx_div(-ONE, -3 * ONE), 333_333);
}

#[test]
fn quotient_by_zero_is_zero() {
    assert_eq!(fx_div(5 * ONE, 0), 0);
    assert_eq!(fx_div(0, 0), 0);
}

#[test]
fn quotient_stops_at_the_ends() {
    assert_eq!(fx_div(i64::MAX, 1), i64::MAX);
    assert_eq!(fx_div(i64::MIN, 1), i64::MIN);
    assert_eq!(fx_div(i64::MIN, -1), i64::MAX);
}

#[test]
fn sum_and_difference_stop_at_the_ends() {
    assert_eq!(fx_add(i64::MAX, 1), i64::MAX);
    assert_eq!(fx_add(i64::MIN, -1), i64::MIN);
    assert_eq!(fx_sub(i64::MIN, 1), i64::MIN);
    assert_eq!(fx_sub(i64::MAX, -1), i64::MAX);
    assert_eq!(fx_add(2 * ONE, 3 * ONE), 5 * ONE);
    assert_eq!(fx_sub(2 * ONE, 3 * ONE), -ONE);
}

#[test]
fn negation_of_the_least_is_the_greatest() {
    assert_eq!(fx_neg(i64::MIN), i64::MAX);
    assert_eq!(fx_neg(5), -5);
    assert_eq!(fx_abs(i64::MIN), i64::MAX);
    assert_eq!(fx_abs(-7), 7);
    assert_eq!(fx_abs(7), 7);
}

#[test]
fn zero_counts_as_positive_for_the_sign() {
    assert_eq!(fx_signed_like(ONE, 0), ONE);
    assert_eq!(fx_signed_like(ONE, 5), ONE);
    assert_eq!(fx_signed_like(ONE, -5), -ONE);
}

#[test]
fn root_of_four_is_two() {
    assert_eq!(fx_sqrt(4 * ONE), 2 * ONE);
    assert_eq!(fx_sqrt(ONE), ONE);
    assert_eq!(fx_sqrt(ONE / 4), ONE / 2);
    assert_eq!(fx_sqrt(2 * ONE), 1_414_213);
}

#[test]
fn root_of_a_negative_scalar_is_zero() {
    assert_eq!(fx_sqrt(-ONE), 0);
    assert_eq!(fx_sqrt(0), 0);
}

#[test]
fn length_of_three_and_four_is_five() {
    assert_eq!(fx_length(3 * ONE, 4 * ONE), 5 * ONE);
    assert_eq!(fx_length(-3 * ONE, 4 * ONE), 5 * ONE);
    assert_eq!(fx_length(0, 0), 0);
}

#[test]
fn length_stops_at_the_end() {
    assert_eq!(fx_length(i64::MIN, i64::MIN), i64::MAX);
}

#[test]
fn steepening_raises_to_a_power_above_one() {
    assert_eq!(fx_steepen(ONE), ONE);
    assert_eq!(fx_steepen(0), 0);
    assert_eq!(fx_steepen(500_000), 317_261);
    assert_eq!(fx_steepen(700_000), 553_914);
}

#[test]
fn clamp_keeps_to_the_range() {
    assert_eq!(fx_clamp(7, 0, 5), 5);
    assert_eq!(fx_clamp(-7, 0, 5), 0);
    assert_eq!(fx_clamp(3, 0, 5), 3);
}

#[test]
fn blend_goes_a_share_of_the_way() {
    assert_eq!(fx_lerp(0, ONE, 50_000), 50_000);
    assert_eq!(fx_lerp(ONE, 0, 250_000), 750_000);
    assert_eq!(fx_lerp(2 * ONE, 4 * ONE, ONE), 4 * ONE);
    assert_eq!(fx_lerp(2 * ONE, 4 * ONE, 0), 2 * ONE);
}

#[test]
fn channels_keep_their_whole_part() {
    assert_eq!(fx_from_channel(150), 150 * ONE);
    assert_eq!(fx_to_channel(150 * ONE + 999_999), 150);
    assert_eq!(fx_to_channel(-5), 0);
    assert_eq!(fx_to_channel(300 * ONE), 255);
    assert_eq!(fx_to_channel(255 * ONE), 255);
}
