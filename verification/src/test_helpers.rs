//! Reference formulas used by protocol scenarios: health factor, liquidation
//! threshold, simple interest accrual and tolerance checks.
use vstd::prelude::*;
use crate::math::{tdiv, fits_i128};
use crate::assertions::abs_diff;

verus! {

/// `|v|`.
pub open spec fn abs(v: int) -> int {
    if v >= 0 { v } else { -v }
}

/// Expects `actual` within `tolerance_bps` of `expected`.
pub fn assert_equal_with_tolerance(actual: i128, expected: i128, tolerance_bps: i128)
    requires
        expected != i128::MIN,
        fits_i128(abs(expected as int) * tolerance_bps),
        fits_i128(actual - expected),
        actual - expected != i128::MIN,
        abs_diff(actual as int, expected as int) <= tdiv(abs(expected as int) * tolerance_bps, 10_000),
{
}

/// Health factor in bps; no debt is maximally healthy, no collateral is 0.
pub open spec fn helper_hf_spec(collateral_value: int, debt_value: int, threshold_bps: int) -> int {
    if debt_value <= 0 {
        i128::MAX as int
    } else if collateral_value <= 0 {
        0
    } else {
        tdiv(collateral_value * threshold_bps, debt_value)
    }
}

/// Health factor of a position in basis points.
pub fn health_factor_bps(collateral_value: i128, debt_value: i128, threshold_bps: i128) -> (r: i128)
    requires
        collateral_value > 0 && debt_value > 0 ==> fits_i128(collateral_value * threshold_bps),
    ensures
        r == helper_hf_spec(collateral_value as int, debt_value as int, threshold_bps as int),
{
    if debt_value <= 0 {
        return i128::MAX;
    }
    if collateral_value <= 0 {
        return 0;
    }
    let p = collateral_value * threshold_bps;
    match p.checked_div(debt_value) { Some(q) => q, None => 0 }
}

/// Liquidatable below a health factor of 1.0.
pub fn is_liquidatable(health_factor: i128) -> (r: bool)
    ensures
        r == (health_factor < 10_000),
{
    health_factor < 10_000
}

/// Simple interest: `principal * rate * seconds / (10 000 * 31 536 000)`.
pub fn calculate_interest_accrual(principal: i128, rate_bps: i128, seconds: u64) -> (r: i128)
    requires
        fits_i128(principal * rate_bps),
        fits_i128(principal * rate_bps * seconds),
    ensures
        r == tdiv(principal * rate_bps * seconds, 315_360_000_000),
{
    let seconds_per_year: i128 = 365 * 24 * 3600;
    let p = principal * rate_bps;
    let q = p * (seconds as i128);
    match q.checked_div(10_000 * seconds_per_year) { Some(v) => v, None => 0 }
}

/// Expects `|actual - expected| <= tolerance`.
pub fn assert_close(actual: i128, expected: i128, tolerance: i128)
    requires
        fits_i128(actual - expected),
        actual - expected != i128::MIN,
        abs_diff(actual as int, expected as int) <= tolerance,
{
}

} // verus!
