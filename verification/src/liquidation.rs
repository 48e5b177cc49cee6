//! Liquidation planning with every check ordered cheapest-first, so a doomed
//! liquidation is rejected before any state is touched.
use vstd::prelude::*;
use crate::math::{tdiv, fits_i128};

verus! {

const BPS_SCALE: i128 = 10_000;

/// Health factor at exactly 1.0, in basis points.
pub const HEALTH_FACTOR_ONE: i128 = 10_000;

/// Reasons a liquidation is rejected.
#[derive(Copy, Clone, Debug, PartialEq, Eq, Structural)]
pub enum LiquidationError {
    /// The repay amount (or another input) was zero or negative.
    InvalidAmount,
    /// The position's health factor is at or above 1.0.
    PositionHealthy,
    /// The oracle price is older than the freshness window.
    StaleOracle,
    /// The estimated execution cost is not covered by the bonus.
    Unprofitable,
    /// Arithmetic overflow.
    Overflow,
}

/// Everything needed to validate and price a liquidation, read in one batch.
#[derive(Clone, Debug, PartialEq, Eq, Structural)]
pub struct PositionSnapshot {
    pub collateral_value: i128,
    pub debt_value: i128,
    pub liquidation_threshold_bps: i128,
    pub close_factor_bps: i128,
    pub liquidation_incentive_bps: i128,
    pub oracle_timestamp: u64,
}

/// A validated liquidation.
#[derive(Clone, Debug, PartialEq, Eq, Structural)]
pub struct LiquidationPlan {
    /// Debt value repaid by the liquidator.
    pub repay_value: i128,
    /// Collateral value seized (repay plus bonus).
    pub seize_value: i128,
    /// The liquidator's gross bonus.
    pub bonus_value: i128,
}

/// Health factor in bps: `collateral * threshold / debt`; no debt is maximally healthy.
pub open spec fn hf_spec(collateral_value: int, debt_value: int, threshold_bps: int) -> Result<i128, LiquidationError> {
    if debt_value <= 0 {
        Ok(i128::MAX)
    } else if collateral_value <= 0 {
        Ok(0)
    } else if !fits_i128(collateral_value * threshold_bps) {
        Err(LiquidationError::Overflow)
    } else {
        Ok(tdiv(collateral_value * threshold_bps, debt_value) as i128)
    }
}

/// Health factor of a position in basis points.
pub fn health_factor_bps(collateral_value: i128, debt_value: i128, threshold_bps: i128) -> (r: Result<i128, LiquidationError>)
    ensures
        r == hf_spec(collateral_value as int, debt_value as int, threshold_bps as int),
{
    if debt_value <= 0 {
        return Ok(i128::MAX);
    }
    if collateral_value <= 0 {
        return Ok(0);
    }
    match collateral_value.checked_mul(threshold_bps) {
        None => Err(LiquidationError::Overflow),
        Some(p) => match p.checked_div(debt_value) {
            None => Err(LiquidationError::Overflow),
            Some(q) => Ok(q),
        },
    }
}

/// A position is liquidatable when its health factor is below 1.0.
pub fn is_liquidatable(health_factor_bps: i128) -> (r: bool)
    ensures
        r == (health_factor_bps < HEALTH_FACTOR_ONE),
{
    health_factor_bps < HEALTH_FACTOR_ONE
}

/// `value * bps / 10 000`, or `Overflow`.
pub open spec fn scale_bps_spec(value: int, bps: int) -> Result<i128, LiquidationError> {
    if fits_i128(value * bps) { Ok(tdiv(value * bps, 10_000) as i128) } else { Err(LiquidationError::Overflow) }
}

/// Largest debt value repayable in one call: `debt * close_factor / 10 000`.
pub fn max_repay_value(debt_value: i128, close_factor_bps: i128) -> (r: Result<i128, LiquidationError>)
    ensures
        r == scale_bps_spec(debt_value as int, close_factor_bps as int),
{
    match debt_value.checked_mul(close_factor_bps) {
        None => Err(LiquidationError::Overflow),
        Some(p) => match p.checked_div(BPS_SCALE) {
            None => Err(LiquidationError::Overflow),
            Some(q) => Ok(q),
        },
    }
}

/// Collateral seized for a repay value: `repay + repay * incentive / 10 000`.
pub open spec fn seize_spec(repay_value: int, incentive_bps: int) -> Result<i128, LiquidationError> {
    match scale_bps_spec(repay_value, incentive_bps) {
        Err(e) => Err(e),
        Ok(bonus) => if fits_i128(repay_value + bonus) { Ok((repay_value + bonus) as i128) } else { Err(LiquidationError::Overflow) },
    }
}

/// Collateral value seized for a given repay value.
pub fn seize_value(repay_value: i128, incentive_bps: i128) -> (r: Result<i128, LiquidationError>)
    ensures
        r == seize_spec(repay_value as int, incentive_bps as int),
{
    let bonus = match repay_value.checked_mul(incentive_bps) {
        None => return Err(LiquidationError::Overflow),
        Some(p) => match p.checked_div(BPS_SCALE) {
            None => return Err(LiquidationError::Overflow),
            Some(q) => q,
        },
    };
    match repay_value.checked_add(bonus) {
        None => Err(LiquidationError::Overflow),
        Some(v) => Ok(v),
    }
}

/// Whether the oracle price is at most `max_age_secs` old (a future timestamp counts as fresh).
pub open spec fn oracle_fresh_spec(oracle_timestamp: u64, now: u64, max_age_secs: u64) -> bool {
    now <= oracle_timestamp || now - oracle_timestamp <= max_age_secs
}

/// Is the oracle price fresh enough?
pub fn is_oracle_fresh(oracle_timestamp: u64, now: u64, max_age_secs: u64) -> (r: bool)
    ensures
        r == oracle_fresh_spec(oracle_timestamp, now, max_age_secs),
{
    let age = if now > oracle_timestamp { now - oracle_timestamp } else { 0 };
    age <= max_age_secs
}

/// Rejects a liquidation whose bonus does not exceed the estimated execution cost.
pub fn abort_if_unprofitable(bonus_value: i128, est_gas_cost: i128) -> (r: Result<(), LiquidationError>)
    ensures
        r == (if bonus_value <= est_gas_cost { Err(LiquidationError::Unprofitable) } else { Ok(()) }),
{
    if bonus_value <= est_gas_cost {
        return Err(LiquidationError::Unprofitable);
    }
    Ok(())
}

/// The outcome of planning a liquidation, check by check in the documented order:
/// amount sign, health factor, close-factor clamp, oracle freshness, profitability.
pub open spec fn plan_spec(s: PositionSnapshot, requested: int, now: u64, max_age: u64, gas: int) -> Result<LiquidationPlan, LiquidationError> {
    if requested <= 0 {
        Err(LiquidationError::InvalidAmount)
    } else {
        match hf_spec(s.collateral_value as int, s.debt_value as int, s.liquidation_threshold_bps as int) {
            Err(e) => Err(e),
            Ok(hf) => if hf >= 10_000 {
                Err(LiquidationError::PositionHealthy)
            } else {
                match scale_bps_spec(s.debt_value as int, s.close_factor_bps as int) {
                    Err(e) => Err(e),
                    Ok(cap) => {
                        let repay = if requested <= cap { requested } else { cap as int };
                        if repay <= 0 {
                            Err(LiquidationError::InvalidAmount)
                        } else if !oracle_fresh_spec(s.oracle_timestamp, now, max_age) {
                            Err(LiquidationError::StaleOracle)
                        } else {
                            match seize_spec(repay, s.liquidation_incentive_bps as int) {
                                Err(e) => Err(e),
                                Ok(seize) => if seize - repay <= gas {
                                    Err(LiquidationError::Unprofitable)
                                } else {
                                    Ok(LiquidationPlan { repay_value: repay as i128, seize_value: seize, bonus_value: (seize - repay) as i128 })
                                },
                            }
                        }
                    },
                }
            },
        }
    }
}

/// Validates and prices a liquidation, cheapest checks first; nothing is
/// mutated, so a rejected liquidation costs only the batched read.
pub fn plan_liquidation(
    snapshot: &PositionSnapshot,
    requested_repay_value: i128,
    now: u64,
    max_oracle_age_secs: u64,
    est_gas_cost: i128,
) -> (r: Result<LiquidationPlan, LiquidationError>)
    ensures
        r == plan_spec(*snapshot, requested_repay_value as int, now, max_oracle_age_secs, est_gas_cost as int),
{
    if requested_repay_value <= 0 {
        return Err(LiquidationError::InvalidAmount);
    }
    let hf = health_factor_bps(snapshot.collateral_value, snapshot.debt_value, snapshot.liquidation_threshold_bps)?;
    if !is_liquidatable(hf) {
        return Err(LiquidationError::PositionHealthy);
    }
    let cap = max_repay_value(snapshot.debt_value, snapshot.close_factor_bps)?;
    let repay_value = if requested_repay_value <= cap { requested_repay_value } else { cap };
    if repay_value <= 0 {
        return Err(LiquidationError::InvalidAmount);
    }
    if !is_oracle_fresh(snapshot.oracle_timestamp, now, max_oracle_age_secs) {
        return Err(LiquidationError::StaleOracle);
    }
    let seize = seize_value(repay_value, snapshot.liquidation_incentive_bps)?;
    let bonus = match seize.checked_sub(repay_value) {
        None => return Err(LiquidationError::Overflow),
        Some(b) => b,
    };
    abort_if_unprofitable(bonus, est_gas_cost)?;
    Ok(LiquidationPlan { repay_value, seize_value: seize, bonus_value: bonus })
}

/// A successful plan never repays more than requested nor more than the
/// close-factor cap, repays a positive amount, seizes exactly repay plus
/// bonus, and leaves the liquidator a bonus above the estimated cost.
pub proof fn lemma_plan_bounds(s: PositionSnapshot, requested: i128, now: u64, max_age: u64, gas: i128)
    requires
        plan_spec(s, requested as int, now, max_age, gas as int) is Ok,
    ensures
        ({
            let p = plan_spec(s, requested as int, now, max_age, gas as int).unwrap();
            &&& 0 < p.repay_value <= requested
            &&& scale_bps_spec(s.debt_value as int, s.close_factor_bps as int) is Ok
            &&& p.repay_value <= scale_bps_spec(s.debt_value as int, s.close_factor_bps as int).unwrap()
            &&& p.seize_value == p.repay_value + p.bonus_value
            &&& p.bonus_value > gas
            &&& oracle_fresh_spec(s.oracle_timestamp, now, max_age)
            &&& hf_spec(s.collateral_value as int, s.debt_value as int, s.liquidation_threshold_bps as int).unwrap() < 10_000
        }),
{
}

/// A position without debt is never liquidated.
pub proof fn lemma_no_debt_never_liquidated(s: PositionSnapshot, requested: i128, now: u64, max_age: u64, gas: i128)
    requires
        s.debt_value <= 0,
    ensures
        !(plan_spec(s, requested as int, now, max_age, gas as int) is Ok),
{
}

} // verus!
