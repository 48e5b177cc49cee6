use soroban_sdk::Env;
use stellarlend::fixed_point::{bps_ratio, fp_add, fp_div, fp_mul, fp_pow, fp_sqrt, fp_sub, simple_interest, SECONDS_PER_YEAR, WAD};
use stellarlend::lending_interest::{accrue_interest, calculate_utilization, compound_interest, InterestRateModel};
use stellarlend::safe_math::{bps_mul, safe_add, safe_div, safe_mul, safe_sub, MathError};

fn env() -> Env {
    Env::default()
}

#[test]
fn fp_mul_unit() {
    let e = env();
    assert_eq!(fp_mul(&e, WAD, WAD), Ok(WAD));
    let one_half = WAD + WAD / 2;
    assert_eq!(fp_mul(&e, one_half, 2 * WAD), Ok(3 * WAD));
}

#[test]
fn fp_mul_zero() {
    let e = env();
    assert_eq!(fp_mul(&e, 0, WAD), Ok(0));
    assert_eq!(fp_mul(&e, WAD, 0), Ok(0));
}

#[test]
fn fp_mul_large_no_overflow() {
    let e = env();
    let amount = 1_000_000_000i128 * WAD;
    let result = fp_mul(&e, amount, WAD);
    assert_eq!(result, Ok(amount));
}

#[test]
fn fp_mul_overflow_result() {
    let e = env();
    assert!(fp_mul(&e, i128::MAX, i128::MAX).is_err());
}

#[test]
fn fp_div_unit() {
    let e = env();
    assert_eq!(fp_div(&e, 3 * WAD, 2 * WAD), Ok(WAD + WAD / 2));
    assert_eq!(fp_div(&e, WAD, WAD), Ok(WAD));
}

#[test]
fn fp_div_by_zero() {
    let e = env();
    assert_eq!(fp_div(&e, WAD, 0), Err(MathError::DivisionByZero));
}

#[test]
fn fp_sqrt_unit() {
    let e = env();
    assert_eq!(fp_sqrt(&e, WAD), Ok(WAD));
    assert_eq!(fp_sqrt(&e, 4 * WAD), Ok(2 * WAD));
    assert_eq!(fp_sqrt(&e, 0), Ok(0));
}

#[test]
fn fp_sqrt_floor_property() {
    let e = env();
    let inputs: &[i128] = &[WAD, 2 * WAD, 3 * WAD, 100 * WAD, 1_000_000 * WAD];
    for &a in inputs {
        let r = fp_sqrt(&e, a).unwrap();
        let r_sq = fp_mul(&e, r, r).unwrap();
        assert!(r_sq <= a, "fp_sqrt floor fail: r²={r_sq} > a={a}");
    }
}

#[test]
fn fp_sqrt_negative() {
    let e = env();
    assert_eq!(fp_sqrt(&e, -1), Err(MathError::NegativeSqrt));
}

#[test]
fn fp_pow_zero_exp() {
    let e = env();
    assert_eq!(fp_pow(&e, 2 * WAD, 0), Ok(WAD));
}

#[test]
fn fp_pow_square() {
    let e = env();
    assert_eq!(fp_pow(&e, 2 * WAD, 2), Ok(4 * WAD));
    let one_five = WAD + WAD / 2;
    let two_twenty_five = 2 * WAD + WAD / 4;
    assert_eq!(fp_pow(&e, one_five, 2), Ok(two_twenty_five));
}

#[test]
fn simple_interest_annual() {
    let e = env();
    let interest = simple_interest(&e, 100_000, 500, SECONDS_PER_YEAR).unwrap();
    assert_eq!(interest, 5_000);
}

#[test]
fn simple_interest_zero_elapsed() {
    let e = env();
    assert_eq!(simple_interest(&e, 1_000_000, 500, 0), Ok(0));
}

#[test]
fn simple_interest_large_principal() {
    let e = env();
    let principal = 1_000_000_000_000_000_000_000_000_000_000i128;
    let interest = simple_interest(&e, principal, 500, SECONDS_PER_YEAR);
    assert!(interest.is_ok());
    let i = interest.unwrap();
    assert!(i > 10_000_000_000_000_000_000_000_000_000i128);
}

#[test]
fn bps_ratio_normal() {
    let e = env();
    assert_eq!(bps_ratio(&e, 5_000, 10_000), Ok(5_000));
    assert_eq!(bps_ratio(&e, 10_000, 10_000), Ok(10_000));
}

#[test]
fn bps_ratio_div_zero() {
    let e = env();
    assert_eq!(bps_ratio(&e, 1_000, 0), Err(MathError::DivisionByZero));
}

#[test]
fn fp_add_sub_exact_and_overflow() {
    assert_eq!(fp_add(WAD, WAD), Ok(2 * WAD));
    assert_eq!(fp_sub(WAD, 2 * WAD), Ok(-WAD));
    assert_eq!(fp_add(i128::MAX, 1), Err(MathError::Overflow));
    assert_eq!(fp_sub(i128::MIN, 1), Err(MathError::Overflow));
}

#[test]
fn fp_mul_and_div_round_down() {
    let e = env();
    assert_eq!(fp_mul(&e, -3, WAD / 2), Ok(-2));
    assert_eq!(fp_mul(&e, 3, WAD / 2), Ok(1));
    assert_eq!(fp_mul(&e, -4, WAD / 2), Ok(-2));
    assert_eq!(fp_mul(&e, 3, -(WAD / 2)), Ok(-2));
    assert_eq!(fp_mul(&e, -3, -(WAD / 2)), Ok(1));
    assert_eq!(fp_div(&e, -1, 3 * WAD), Ok(-1));
    assert_eq!(fp_div(&e, 1, -3 * WAD), Ok(-1));
    assert_eq!(fp_div(&e, -3 * WAD, 2 * WAD), Ok(-WAD - WAD / 2));
    assert_eq!(fp_div(&e, 1, 3 * WAD), Ok(0));
    assert_eq!(fp_mul(&e, i128::MIN, WAD), Ok(i128::MIN));
    assert_eq!(fp_mul(&e, i128::MIN, WAD - 1).is_ok(), true);
}

#[test]
fn safe_math_exact_values() {
    assert_eq!(safe_add(2, 3), Ok(5));
    assert_eq!(safe_sub(2, 3), Ok(-1));
    assert_eq!(safe_mul(-4, 3), Ok(-12));
    assert_eq!(safe_div(7, 2), Ok(3));
    assert_eq!(safe_div(-7, 2), Ok(-3));
    assert_eq!(safe_div(7, 0), Err(MathError::DivisionByZero));
    assert_eq!(safe_mul(i128::MAX, 2), Err(MathError::Overflow));
    assert_eq!(bps_mul(100_000, 500), Ok(5_000));
}

#[test]
fn test_utilization_calculation() {
    assert_eq!(calculate_utilization(50_000, 100_000), Ok(5_000));
    assert_eq!(calculate_utilization(80_000, 100_000), Ok(8_000));
    assert_eq!(calculate_utilization(0, 100_000), Ok(0));
    assert_eq!(calculate_utilization(100_000, 0), Ok(0));
}

#[test]
fn test_interest_rate_model_below_kink() {
    let model = InterestRateModel {
        base_rate: 200,
        slope1: 400,
        slope2: 6_000,
        optimal_utilization: 8_000,
    };

    let rate_at_50 = model.calculate_borrow_rate(5_000).unwrap();
    assert!(rate_at_50 > model.base_rate);

    let rate_at_90 = model.calculate_borrow_rate(9_000).unwrap();
    assert!(rate_at_90 > rate_at_50);
}

#[test]
fn test_accrue_interest_annual() {
    let env = Env::default();
    let interest = accrue_interest(&env, 100_000, 500, SECONDS_PER_YEAR).unwrap();
    assert_eq!(interest, 5_000);
}

#[test]
fn test_accrue_interest_zero_elapsed() {
    let env = Env::default();
    assert_eq!(accrue_interest(&env, 1_000_000, 500, 0), Ok(0));
}

#[test]
fn test_utilization_overflow_is_err() {
    let result = calculate_utilization(i128::MAX, 1);
    assert!(result.is_err());
}

#[test]
fn test_borrow_rate_overflow_inputs_err() {
    let model = InterestRateModel {
        base_rate: i128::MAX,
        slope1: i128::MAX,
        slope2: i128::MAX,
        optimal_utilization: 8_000,
    };
    assert!(model.calculate_borrow_rate(5_000).is_err());
}

#[test]
fn test_supply_rate_zero_pool() {
    let model = InterestRateModel {
        base_rate: 200,
        slope1: 400,
        slope2: 6_000,
        optimal_utilization: 8_000,
    };
    let rate = model.calculate_supply_rate(500, 5_000, 10_000).unwrap();
    assert_eq!(rate, 0);
}

#[test]
fn compound_interest_two_periods() {
    assert_eq!(compound_interest(10_000, 1_000, 2), Ok(2_100));
    assert_eq!(compound_interest(10_000, 1_000, 0), Ok(0));
}
