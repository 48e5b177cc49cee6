//! Checked expectations over protocol values. Each function requires what it
//! asserts, so a verified caller must establish the expectation statically.
use vstd::prelude::*;
use crate::math::{tdiv, fits_i128};

verus! {

/// Expects a non-negative value.
pub fn assert_non_negative(value: i128, message: &str)
    requires
        value >= 0,
{
}

/// Expects a positive value.
pub fn assert_positive(value: i128, message: &str)
    requires
        value > 0,
{
}

/// Expects `min <= value <= max`.
pub fn assert_in_range(value: i128, min: i128, max: i128, message: &str)
    requires
        min <= value <= max,
{
}

/// Expects a non-negative account balance.
pub fn assert_balance_non_negative(balance: i128, account: &str)
    requires
        balance >= 0,
{
    assert_non_negative(balance, account);
}

/// Expects two balances to be equal.
pub fn assert_balances_equal(actual: i128, expected: i128, message: &str)
    requires
        actual == expected,
{
}

/// `|actual - expected|`.
pub open spec fn abs_diff(actual: int, expected: int) -> int {
    if actual >= expected { actual - expected } else { expected - actual }
}

/// Expects `|actual - expected| <= tolerance`.
pub fn assert_approximately_equal(actual: i128, expected: i128, tolerance: i128, message: &str)
    requires
        fits_i128(actual - expected),
        actual - expected != i128::MIN,
        abs_diff(actual as int, expected as int) <= tolerance,
{
}

/// Expects `value` between `base * low / 10 000` and `base * high / 10 000`.
pub fn assert_percentage_in_range(value: i128, percentage_low: i128, percentage_high: i128, base: i128, message: &str)
    requires
        fits_i128(base * percentage_low),
        fits_i128(base * percentage_high),
        tdiv(base * percentage_low, 10_000) <= value <= tdiv(base * percentage_high, 10_000),
{
    let lo = base * percentage_low;
    let hi = base * percentage_high;
    let expected_low = match lo.checked_div(10_000) { Some(q) => q, None => 0 };
    let expected_high = match hi.checked_div(10_000) { Some(q) => q, None => 0 };
    assert_in_range(value, expected_low, expected_high, message);
}

/// Expects `actual > threshold`.
pub fn assert_greater_than(actual: i128, threshold: i128, message: &str)
    requires
        actual > threshold,
{
}

/// Expects `actual < threshold`.
pub fn assert_less_than(actual: i128, threshold: i128, message: &str)
    requires
        actual < threshold,
{
}

/// Expects zero.
pub fn assert_zero(value: i128, message: &str)
    requires
        value == 0,
{
}

/// Expects a non-zero value.
pub fn assert_not_zero(value: i128, message: &str)
    requires
        value != 0,
{
}

} // verus!
