use std::f64::consts::{FRAC_PI_2, FRAC_PI_3, FRAC_PI_4, PI};

use raytracer::fixed::{Fix, EPSILON_RAW, FIX_MAX, SCALE};
use raytracer::utils::FuzzyEq;

fn fx(v: f64) -> Fix {
    Fix::from_raw((v * 1_000_000_000f64).round() as i64)
}

#[test]
fn arithmetic_matches_hand_results_exactly() {
    assert_eq!(fx(1.5).add(fx(2.25)), fx(3.75));
    assert_eq!(fx(1.5).sub(fx(2.25)), fx(-0.75));
    assert_eq!(fx(1.5).neg(), fx(-1.5));
    assert_eq!(fx(1.5).mul(fx(2.0)), fx(3.0));
    assert_eq!(fx(0.8).mul(fx(0.4)), fx(0.32));
    assert_eq!(fx(3.0).div(fx(2.0)), fx(1.5));
    assert_eq!(fx(-3.0).div(fx(2.0)), fx(-1.5));
    assert_eq!(fx(1.0).div(fx(3.0)), Fix::from_raw(333_333_333));
    assert_eq!(fx(2.0).div(fx(3.0)), Fix::from_raw(666_666_667));
}

#[test]
fn multiplication_rounds_to_the_nearest_unit() {
    let tiny = Fix::from_raw(1);
    assert_eq!(tiny.mul(tiny), Fix::zero());
    assert_eq!(Fix::from_raw(SCALE / 2).mul(Fix::from_raw(3)), Fix::from_raw(2));
}

#[test]
fn addition_saturates_at_the_range_bound() {
    let top = Fix::from_raw(FIX_MAX);
    assert_eq!(top.add(Fix::one()).raw(), FIX_MAX);
    assert_eq!(top.neg().sub(Fix::one()).raw(), -FIX_MAX);
}

#[test]
fn comparisons_and_clamp_follow_the_raw_order() {
    assert!(fx(1.0).lt(fx(2.0)));
    assert!(fx(2.0).le(fx(2.0)));
    assert!(fx(3.0).gt(fx(2.0)));
    assert!(fx(2.0).ge(fx(2.0)));
    assert_eq!(fx(2.5).clamp(fx(0.0), fx(1.0)), fx(1.0));
    assert_eq!(fx(-2.5).clamp(fx(0.0), fx(1.0)), fx(0.0));
    assert_eq!(fx(0.5).clamp(fx(0.0), fx(1.0)), fx(0.5));
    assert_eq!(fx(2.5).abs(), fx(2.5));
    assert_eq!(fx(-2.5).abs(), fx(2.5));
}

#[test]
fn rounding_units_ties_away_from_zero() {
    assert_eq!(fx(2.5).round_units(), 3);
    assert_eq!(fx(-2.5).round_units(), -3);
    assert_eq!(fx(2.4).round_units(), 2);
    assert_eq!(fx(199.99999).round_units(), 200);
}

#[test]
fn fuzzy_equality_tolerates_a_hundred_thousandth() {
    assert!(fx(1.0).fuzzy_eq(Fix::from_raw(SCALE + EPSILON_RAW - 1)));
    assert!(fx(1.0).fuzzy_ne(Fix::from_raw(SCALE + EPSILON_RAW)));
    assert!(fx(0.0).fuzzy_eq(fx(0.0)));
}

#[test]
fn square_roots_match_known_values() {
    assert_eq!(fx(4.0).sqrt(), fx(2.0));
    assert_eq!(fx(169.0).sqrt(), fx(13.0));
    assert_eq!(fx(0.0).sqrt(), fx(0.0));
    assert!(fx(2.0).sqrt().fuzzy_eq(fx(1.41421356)));
    assert!(fx(70.0).sqrt().fuzzy_eq(fx(8.36660027)));
}

#[test]
fn circular_functions_match_known_values() {
    assert!(fx(FRAC_PI_2).sin().fuzzy_eq(fx(1.0)));
    assert!(fx(FRAC_PI_2).cos().fuzzy_eq(fx(0.0)));
    assert!(fx(PI).sin().fuzzy_eq(fx(0.0)));
    assert!(fx(PI).cos().fuzzy_eq(fx(-1.0)));
    assert!(fx(FRAC_PI_4).sin().fuzzy_eq(fx(0.70710678)));
    assert!(fx(FRAC_PI_4).cos().fuzzy_eq(fx(0.70710678)));
    assert!(fx(FRAC_PI_3).sin().fuzzy_eq(fx(0.86602540)));
    assert!(fx(FRAC_PI_3).cos().fuzzy_eq(fx(0.5)));
    assert!(fx(-FRAC_PI_4).sin().fuzzy_eq(fx(-0.70710678)));
    assert!(fx(-FRAC_PI_4).cos().fuzzy_eq(fx(0.70710678)));
    assert!(fx(2.0 * PI).sin().fuzzy_eq(fx(0.0)));
    assert!(fx(2.0 * PI).cos().fuzzy_eq(fx(1.0)));
}

#[test]
fn tangent_matches_known_values() {
    assert!(fx(FRAC_PI_4).tan().fuzzy_eq(fx(1.0)));
    assert!(fx(0.0).tan().fuzzy_eq(fx(0.0)));
    assert!(fx(FRAC_PI_3).tan().fuzzy_eq(fx(1.73205080)));
}

#[test]
fn whole_powers_match_known_values() {
    assert_eq!(fx(2.0).powi(10), fx(1024.0));
    assert_eq!(fx(1.0).powi(200), fx(1.0));
    assert_eq!(fx(3.0).powi(0), fx(1.0));
    assert!(fx(0.5).powi(3).fuzzy_eq(fx(0.125)));
}

#[test]
fn conversions_between_units_and_raw() {
    assert_eq!(Fix::from_units(7).raw(), 7 * SCALE);
    assert_eq!(Fix::from_units(-7).raw(), -7 * SCALE);
    assert_eq!(Fix::from_units_u64(7).raw(), 7 * SCALE);
    assert_eq!(Fix::one().raw(), SCALE);
    assert_eq!(Fix::zero().raw(), 0);
    assert_eq!(fx(1.25).floor_units(), 1);
}
