//! Position risk checks: liquidation eligibility, bonuses, LTV, borrow
//! capacity, concentration limits and an aggregate risk snapshot.
use vstd::prelude::*;
use crate::math::{tdiv, fits_i128, div_trunc};
use crate::types::{calculate_health_factor, is_healthy, health_factor_spec, BPS_DIVISOR};

verus! {

/// Stateless risk checks.
pub struct RiskManager;

/// Loan-to-value in basis points; an empty collateral reads as 100%.
pub open spec fn ltv_spec(debt_value: int, collateral_value: int) -> int {
    if collateral_value == 0 {
        10_000
    } else {
        tdiv(debt_value * 10_000, collateral_value)
    }
}

impl RiskManager {
    /// A position may be liquidated when its health factor is below 1.0.
    pub fn check_liquidation_eligibility(
        collateral_value: i128,
        debt_value: i128,
        liquidation_threshold_bps: i128,
    ) -> (r: bool)
        ensures
            r == (health_factor_spec(collateral_value as int, debt_value as int, liquidation_threshold_bps as int) < 10_000),
    {
        let health_factor = calculate_health_factor(collateral_value, debt_value, liquidation_threshold_bps);
        !is_healthy(health_factor)
    }

    /// Liquidator bonus: `debt * bonus_bps / 10 000`.
    pub fn calculate_liquidation_bonus(debt_amount: i128, bonus_bps: i128) -> (r: i128)
        requires
            fits_i128(debt_amount * bonus_bps),
        ensures
            r == tdiv(debt_amount * bonus_bps, 10_000),
    {
        let p = debt_amount * bonus_bps;
        p / BPS_DIVISOR
    }

    /// Largest debt value repayable in one liquidation: `debt * close_factor / 10 000`.
    pub fn calculate_max_liquidatable(debt_value: i128, close_factor_bps: i128) -> (r: i128)
        requires
            fits_i128(debt_value * close_factor_bps),
        ensures
            r == tdiv(debt_value * close_factor_bps, 10_000),
    {
        let p = debt_value * close_factor_bps;
        p / BPS_DIVISOR
    }

    /// Whether `existing_debt + new_borrow` stays within `collateral * factor / 10 000`.
    pub fn validate_borrow_capacity(
        collateral_value: i128,
        existing_debt: i128,
        new_borrow: i128,
        collateral_factor_bps: i128,
    ) -> (r: bool)
        requires
            fits_i128(collateral_value * collateral_factor_bps),
            fits_i128(existing_debt + new_borrow),
        ensures
            r == (existing_debt + new_borrow <= tdiv(collateral_value * collateral_factor_bps, 10_000)),
    {
        let p = collateral_value * collateral_factor_bps;
        let max_borrow = p / BPS_DIVISOR;
        existing_debt + new_borrow <= max_borrow
    }

    /// Loan-to-value ratio in basis points.
    pub fn calculate_ltv(debt_value: i128, collateral_value: i128) -> (r: i128)
        requires
            fits_i128(debt_value * 10_000),
            fits_i128(ltv_spec(debt_value as int, collateral_value as int)),
        ensures
            r == ltv_spec(debt_value as int, collateral_value as int),
    {
        if collateral_value == 0 {
            return BPS_DIVISOR;
        }
        let p = debt_value * BPS_DIVISOR;
        div_trunc(p, collateral_value)
    }

    /// Whether an asset's share of the pool stays within the concentration limit.
    pub fn check_concentration_risk(
        asset_value: i128,
        total_pool_value: i128,
        max_concentration_bps: i128,
    ) -> (r: bool)
        requires
            fits_i128(asset_value * 10_000),
            total_pool_value != 0 ==> fits_i128(tdiv(asset_value * 10_000, total_pool_value as int)),
        ensures
            r == (total_pool_value == 0 || tdiv(asset_value * 10_000, total_pool_value as int) <= max_concentration_bps),
    {
        if total_pool_value == 0 {
            return true;
        }
        let p = asset_value * BPS_DIVISOR;
        let concentration = div_trunc(p, total_pool_value);
        concentration <= max_concentration_bps
    }
}

/// A snapshot of a position's risk figures.
pub struct RiskMetrics {
    pub health_factor: i128,
    pub ltv_ratio: i128,
    pub liquidation_price: i128,
    pub borrow_capacity: i128,
}

/// Liquidation price figure: `debt * 10 000 / (collateral * threshold / 10 000)`, 0 without collateral.
pub open spec fn liquidation_price_spec(collateral_value: int, debt_value: int, threshold_bps: int) -> int {
    if collateral_value > 0 {
        tdiv(debt_value * 10_000, tdiv(collateral_value * threshold_bps, 10_000))
    } else {
        0
    }
}

impl RiskMetrics {
    /// Computes the risk snapshot of a position.
    pub fn calculate(
        collateral_value: i128,
        debt_value: i128,
        collateral_factor_bps: i128,
        liquidation_threshold_bps: i128,
    ) -> (r: Self)
        requires
            fits_i128(debt_value * 10_000),
            fits_i128(ltv_spec(debt_value as int, collateral_value as int)),
            fits_i128(collateral_value * collateral_factor_bps),
            collateral_value > 0 ==> fits_i128(collateral_value * liquidation_threshold_bps),
            collateral_value > 0 ==> tdiv(collateral_value * liquidation_threshold_bps, 10_000) != 0,
            collateral_value > 0 ==> fits_i128(liquidation_price_spec(collateral_value as int, debt_value as int, liquidation_threshold_bps as int)),
        ensures
            r.health_factor == health_factor_spec(collateral_value as int, debt_value as int, liquidation_threshold_bps as int),
            r.ltv_ratio == ltv_spec(debt_value as int, collateral_value as int),
            r.borrow_capacity == tdiv(collateral_value * collateral_factor_bps, 10_000),
            r.liquidation_price == liquidation_price_spec(collateral_value as int, debt_value as int, liquidation_threshold_bps as int),
    {
        let health_factor = calculate_health_factor(collateral_value, debt_value, liquidation_threshold_bps);
        let ltv_ratio = RiskManager::calculate_ltv(debt_value, collateral_value);
        let cap = collateral_value * collateral_factor_bps;
        let borrow_capacity = cap / BPS_DIVISOR;
        let liquidation_price = if collateral_value > 0 {
            let weighted = collateral_value * liquidation_threshold_bps;
            let adjusted = weighted / BPS_DIVISOR;
            let num = debt_value * BPS_DIVISOR;
            div_trunc(num, adjusted)
        } else {
            0
        };
        RiskMetrics { health_factor, ltv_ratio, liquidation_price, borrow_capacity }
    }
}

/// For a positive collateral and a non-negative debt, the loan-to-value ratio
/// is the debt over the collateral in basis points, rounded down:
/// `ltv * collateral <= debt * 10 000 < (ltv + 1) * collateral`; without
/// collateral it is 100%.
pub proof fn lemma_ltv_is_ratio(debt_value: int, collateral_value: int)
    requires
        debt_value >= 0,
        collateral_value >= 0,
    ensures
        collateral_value == 0 ==> ltv_spec(debt_value, collateral_value) == 10_000,
        collateral_value > 0 ==> ({
            let l = ltv_spec(debt_value, collateral_value);
            l * collateral_value <= debt_value * 10_000 < (l + 1) * collateral_value
        }),
{
    if collateral_value > 0 {
        let x = debt_value * 10_000;
        vstd::arithmetic::div_mod::lemma_fundamental_div_mod(x, collateral_value);
        vstd::arithmetic::div_mod::lemma_mod_pos_bound(x, collateral_value);
        let q = x / collateral_value;
        assert(tdiv(x, collateral_value) == q);
        assert(q * collateral_value <= x < (q + 1) * collateral_value) by (nonlinear_arith)
            requires x == collateral_value * q + x % collateral_value, 0 <= x % collateral_value < collateral_value;
    }
}

} // verus!
