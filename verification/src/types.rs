//! Shared lending data types and the health-factor rule.
use vstd::prelude::*;
use crate::math::{tdiv, fits_i128};

verus! {

/// Identifier of an on-chain account or contract.
pub type AccountId = u64;

/// Basis-point denominator: 10 000 bps == 100%.
pub const BPS_DIVISOR: i128 = 10_000;
/// Largest basis-point value.
pub const MAX_BPS: i128 = 10_000;

/// A borrower's position.
#[derive(Clone, Copy, Debug, PartialEq, Eq, Structural)]
pub struct Position {
    pub collateral_amount: i128,
    pub debt_amount: i128,
    pub last_updated: u64,
}

/// Per-asset risk configuration.
#[derive(Clone, Debug, PartialEq, Eq, Structural)]
pub struct AssetConfig {
    pub collateral_factor: i128,
    pub liquidation_threshold: i128,
    pub reserve_factor: i128,
    pub max_supply: i128,
    pub max_borrow: i128,
}

/// A user's valued position together with its health factor.
#[derive(Clone, Debug, PartialEq, Eq, Structural)]
pub struct UserPosition {
    pub user: AccountId,
    pub collateral_value: i128,
    pub debt_value: i128,
    pub health_factor: i128,
}

/// Protocol-wide configuration.
#[derive(Clone, Copy, Debug, PartialEq, Eq, Structural)]
pub struct ProtocolConfig {
    pub admin: AccountId,
    pub oracle: Option<AccountId>,
    pub debt_ceiling: i128,
    pub min_borrow_amount: i128,
    pub liquidation_threshold_bps: i128,
}

/// Whether the protocol is paused.
#[derive(Clone, Debug, PartialEq, Eq, Structural)]
pub enum PauseState {
    Active,
    Paused,
}

/// The user-facing lending operations.
#[derive(Clone, Debug, PartialEq, Eq, Structural)]
pub enum OperationType {
    Deposit,
    Withdraw,
    Borrow,
    Repay,
    Liquidation,
}

/// Errors that can be reported as a stable `u32`.
pub trait LendingError {
    spec fn spec_code(&self) -> u32;

    fn to_u32(&self) -> (r: u32)
        ensures
            r == self.spec_code(),
    ;
}

/// Errors common to the lending contracts.
#[derive(Clone, Copy, Debug, PartialEq, Eq, Structural)]
pub enum CommonError {
    Unauthorized,
    InvalidAmount,
    InsufficientBalance,
    ExceedsLimit,
    ProtocolPaused,
    OracleNotSet,
    InvalidConfiguration,
    ReentrancyDetected,
}

/// Stable numeric code of each common error.
pub open spec fn common_error_code(e: CommonError) -> u32 {
    match e {
        CommonError::Unauthorized => 1,
        CommonError::InvalidAmount => 2,
        CommonError::InsufficientBalance => 3,
        CommonError::ExceedsLimit => 4,
        CommonError::ProtocolPaused => 5,
        CommonError::OracleNotSet => 6,
        CommonError::InvalidConfiguration => 7,
        CommonError::ReentrancyDetected => 8,
    }
}

impl LendingError for CommonError {
    open spec fn spec_code(&self) -> u32 {
        common_error_code(*self)
    }

    fn to_u32(&self) -> (r: u32) {
        match self {
            CommonError::Unauthorized => 1,
            CommonError::InvalidAmount => 2,
            CommonError::InsufficientBalance => 3,
            CommonError::ExceedsLimit => 4,
            CommonError::ProtocolPaused => 5,
            CommonError::OracleNotSet => 6,
            CommonError::InvalidConfiguration => 7,
            CommonError::ReentrancyDetected => 8,
        }
    }
}

/// Health factor in basis points: `collateral * threshold / debt` (rounded
/// toward zero). No debt is maximally healthy; an arithmetic overflow reads as 0.
pub open spec fn health_factor_spec(collateral_value: int, debt_value: int, threshold_bps: int) -> int {
    if debt_value == 0 {
        i128::MAX as int
    } else if !fits_i128(collateral_value * threshold_bps) {
        0
    } else if !fits_i128(tdiv(collateral_value * threshold_bps, debt_value)) {
        0
    } else {
        tdiv(collateral_value * threshold_bps, debt_value)
    }
}

/// Health factor of a position, in basis points.
pub fn calculate_health_factor(collateral_value: i128, debt_value: i128, threshold_bps: i128) -> (r: i128)
    ensures
        r == health_factor_spec(collateral_value as int, debt_value as int, threshold_bps as int),
{
    if debt_value == 0 {
        return i128::MAX;
    }
    match collateral_value.checked_mul(threshold_bps) {
        None => 0,
        Some(v) => match v.checked_div(debt_value) {
            None => 0,
            Some(q) => q,
        },
    }
}

/// A position is healthy when its health factor is at least 1.0 (10 000 bps).
pub fn is_healthy(health_factor: i128) -> (r: bool)
    ensures
        r == (health_factor >= 10_000),
{
    health_factor >= 10_000
}

/// For a positive debt and a product that fits, the health factor is the
/// collateral times the threshold divided by the debt, rounded down:
/// `hf * debt <= collateral * threshold < (hf + 1) * debt`. Hence a position
/// is below 1.0 exactly when `collateral * threshold < 10 000 * debt`.
pub proof fn lemma_health_factor_is_ratio(collateral_value: int, debt_value: int, threshold_bps: int)
    requires
        debt_value > 0,
        collateral_value >= 0,
        threshold_bps >= 0,
        fits_i128(collateral_value * threshold_bps),
    ensures
        ({
            let hf = health_factor_spec(collateral_value, debt_value, threshold_bps);
            &&& hf * debt_value <= collateral_value * threshold_bps < (hf + 1) * debt_value
            &&& (hf < 10_000) <==> (collateral_value * threshold_bps < 10_000 * debt_value)
        }),
{
    let x = collateral_value * threshold_bps;
    assert(x >= 0) by (nonlinear_arith) requires collateral_value >= 0, threshold_bps >= 0, x == collateral_value * threshold_bps;
    vstd::arithmetic::div_mod::lemma_fundamental_div_mod(x, debt_value);
    vstd::arithmetic::div_mod::lemma_mod_pos_bound(x, debt_value);
    vstd::arithmetic::div_mod::lemma_div_is_ordered_by_denominator(x, 1, debt_value);
    vstd::arithmetic::div_mod::lemma_div_pos_is_pos(x, debt_value);
    let q = x / debt_value;
    assert(q <= x);
    assert(tdiv(x, debt_value) == q);
    let hf = health_factor_spec(collateral_value, debt_value, threshold_bps);
    assert(hf == q);
    assert(q * debt_value <= x < (q + 1) * debt_value) by (nonlinear_arith)
        requires x == debt_value * q + x % debt_value, 0 <= x % debt_value < debt_value;
    if q < 10_000 {
        assert(x < 10_000 * debt_value) by (nonlinear_arith) requires x < (q + 1) * debt_value, q < 10_000, debt_value > 0;
    } else {
        assert(x >= 10_000 * debt_value) by (nonlinear_arith) requires q * debt_value <= x, q >= 10_000, debt_value > 0;
    }
}

} // verus!
