//! Delegated (meta-transaction) execution: nonce and deadline checks,
//! per-action permission bits, and per-user / per-pool supply and borrow caps.
use vstd::prelude::*;
use crate::math::{tdiv, fits_i128};
use crate::types::AccountId;
use crate::deadline::{require_deadline, expired_at};

verus! {

const BPS_DENOMINATOR: i128 = 10_000;

/// Failures of delegated execution.
#[derive(Copy, Clone, Debug, PartialEq, Eq, Structural)]
pub enum MetaTxError {
    Unauthorized,
    Expired,
    InvalidNonce,
    DelegationMissing,
    DelegationExpired,
    PermissionDenied,
    InvalidCapConfig,
    UserSupplyCapExceeded,
    UserBorrowCapExceeded,
    PoolSupplyCapExceeded,
    PoolBorrowCapExceeded,
    ArithmeticOverflow,
}

/// The actions a delegate may perform.
#[derive(Clone, Copy, Debug, PartialEq, Eq, Structural)]
pub enum Action {
    Deposit,
    Withdraw,
    Borrow,
    Repay,
    DepositCollateral,
}

/// One delegated call.
#[derive(Clone, Debug, PartialEq, Eq, Structural)]
pub struct Call {
    pub action: Action,
    pub asset: AccountId,
    pub amount: i128,
    pub collateral_asset: Option<AccountId>,
    pub collateral_amount: Option<i128>,
}

/// Supply and borrow caps of an asset.
#[derive(Clone, Debug, PartialEq, Eq, Structural)]
pub struct CapConfig {
    /// Most one account may supply, as bps of the pool supply cap.
    pub user_supply_cap_bps: u32,
    /// Most one account may borrow, as bps of its supplied collateral.
    pub user_borrow_cap_bps: u32,
    /// Pool-wide supply cap (`i128::MAX` disables it).
    pub pool_supply_cap: i128,
    /// Pool-wide borrow cap (`i128::MAX` disables it).
    pub pool_borrow_cap: i128,
}

/// Current usage of the caps of an asset by a user.
#[derive(Clone, Debug, PartialEq, Eq, Structural)]
pub struct CapUtilization {
    pub asset: AccountId,
    pub user: AccountId,
    pub user_supplied: i128,
    pub user_borrowed: i128,
    pub pool_supplied: i128,
    pub pool_borrowed: i128,
    pub user_supply_cap_bps: u32,
    pub user_borrow_cap_bps: u32,
    pub pool_supply_cap: i128,
    pub pool_borrow_cap: i128,
}

/// The permission bit a delegation must grant for an action.
pub open spec fn permission_spec(action: Action) -> u32 {
    match action {
        Action::Deposit => 1,
        Action::Withdraw => 2,
        Action::Borrow => 4,
        Action::Repay => 8,
        Action::DepositCollateral => 16,
    }
}

/// Permission bit of an action.
pub fn permission_bit(action: Action) -> (r: u32)
    ensures
        r == permission_spec(action),
{
    match action {
        Action::Deposit => 1,
        Action::Withdraw => 2,
        Action::Borrow => 4,
        Action::Repay => 8,
        Action::DepositCollateral => 16,
    }
}

/// Caps in effect when none are configured: no limits.
pub open spec fn default_caps() -> CapConfig {
    CapConfig { user_supply_cap_bps: 10_000, user_borrow_cap_bps: 10_000, pool_supply_cap: i128::MAX, pool_borrow_cap: i128::MAX }
}

/// The unlimited cap configuration.
pub fn default_cap_config() -> (r: CapConfig)
    ensures
        r == default_caps(),
{
    CapConfig { user_supply_cap_bps: 10_000, user_borrow_cap_bps: 10_000, pool_supply_cap: i128::MAX, pool_borrow_cap: i128::MAX }
}

/// The caps of an asset: the stored ones, or no limits.
pub fn get_cap_config(stored: Option<CapConfig>) -> (r: CapConfig)
    ensures
        r == (match stored { Some(c) => c, None => default_caps() }),
{
    match stored {
        Some(c) => c,
        None => default_cap_config(),
    }
}

/// Is a cap configuration acceptable?
pub open spec fn caps_valid(c: CapConfig) -> bool {
    c.user_supply_cap_bps <= 10_000 && c.user_borrow_cap_bps <= 10_000 && c.pool_supply_cap >= 0 && c.pool_borrow_cap >= 0
}

/// Validates a cap configuration.
pub fn validate_cap_config(config: &CapConfig) -> (r: Result<(), MetaTxError>)
    ensures
        r == (if caps_valid(*config) { Ok(()) } else { Err(MetaTxError::InvalidCapConfig) }),
{
    if config.user_supply_cap_bps > 10_000 || config.user_borrow_cap_bps > 10_000 {
        return Err(MetaTxError::InvalidCapConfig);
    }
    if config.pool_supply_cap < 0 || config.pool_borrow_cap < 0 {
        return Err(MetaTxError::InvalidCapConfig);
    }
    Ok(())
}

/// Admin check and validation of a new cap configuration (which then gets persisted).
pub fn configure_caps(caller: AccountId, admin: Option<AccountId>, config: &CapConfig) -> (r: Result<(), MetaTxError>)
    ensures
        r == (if admin is None || admin.unwrap() != caller {
            Err(MetaTxError::Unauthorized)
        } else if caps_valid(*config) {
            Ok(())
        } else {
            Err(MetaTxError::InvalidCapConfig)
        }),
{
    match admin {
        None => Err(MetaTxError::Unauthorized),
        Some(a) => if a != caller { Err(MetaTxError::Unauthorized) } else { validate_cap_config(config) },
    }
}

/// Checked addition.
pub fn checked_add(a: i128, b: i128) -> (r: Result<i128, MetaTxError>)
    ensures
        r == (if fits_i128(a + b) { Ok((a + b) as i128) } else { Err(MetaTxError::ArithmeticOverflow) }),
{
    match a.checked_add(b) {
        Some(v) => Ok(v),
        None => Err(MetaTxError::ArithmeticOverflow),
    }
}

/// `base * bps / 10 000`, or `ArithmeticOverflow`.
pub open spec fn cap_spec(base: int, bps: int) -> Result<i128, MetaTxError> {
    if fits_i128(base * bps) { Ok(tdiv(base * bps, 10_000) as i128) } else { Err(MetaTxError::ArithmeticOverflow) }
}

/// A cap expressed as basis points of a base amount.
pub fn cap_from_bps(base: i128, bps: u32) -> (r: Result<i128, MetaTxError>)
    ensures
        r == cap_spec(base as int, bps as int),
{
    match base.checked_mul(bps as i128) {
        None => Err(MetaTxError::ArithmeticOverflow),
        Some(p) => match p.checked_div(BPS_DENOMINATOR) {
            None => Err(MetaTxError::ArithmeticOverflow),
            Some(q) => Ok(q),
        },
    }
}

/// The outcome of a supply-cap check: pool cap first, then the user's share.
pub open spec fn supply_cap_spec(c: CapConfig, pool_supplied: int, user_supplied: int, amount: int) -> Result<(), MetaTxError> {
    if !fits_i128(pool_supplied + amount) || !fits_i128(user_supplied + amount) {
        Err(MetaTxError::ArithmeticOverflow)
    } else if pool_supplied + amount > c.pool_supply_cap {
        Err(MetaTxError::PoolSupplyCapExceeded)
    } else {
        match cap_spec(c.pool_supply_cap as int, c.user_supply_cap_bps as int) {
            Err(e) => Err(e),
            Ok(user_cap) => if user_supplied + amount > user_cap { Err(MetaTxError::UserSupplyCapExceeded) } else { Ok(()) },
        }
    }
}

/// Checks a supply of `amount` against the pool and per-user supply caps.
pub fn enforce_supply_cap(config: &CapConfig, pool_supplied: i128, user_supplied: i128, amount: i128) -> (r: Result<(), MetaTxError>)
    ensures
        r == supply_cap_spec(*config, pool_supplied as int, user_supplied as int, amount as int),
{
    let new_pool = checked_add(pool_supplied, amount)?;
    let new_user = checked_add(user_supplied, amount)?;
    if new_pool > config.pool_supply_cap {
        return Err(MetaTxError::PoolSupplyCapExceeded);
    }
    let user_cap = cap_from_bps(config.pool_supply_cap, config.user_supply_cap_bps)?;
    if new_user > user_cap {
        return Err(MetaTxError::UserSupplyCapExceeded);
    }
    Ok(())
}

/// The outcome of a borrow-cap check: pool cap first, then the user's share of collateral.
pub open spec fn borrow_cap_spec(c: CapConfig, pool_borrowed: int, user_borrowed: int, amount: int, collateral: int) -> Result<(), MetaTxError> {
    if !fits_i128(pool_borrowed + amount) || !fits_i128(user_borrowed + amount) {
        Err(MetaTxError::ArithmeticOverflow)
    } else if pool_borrowed + amount > c.pool_borrow_cap {
        Err(MetaTxError::PoolBorrowCapExceeded)
    } else {
        match cap_spec(collateral, c.user_borrow_cap_bps as int) {
            Err(e) => Err(e),
            Ok(user_cap) => if user_borrowed + amount > user_cap { Err(MetaTxError::UserBorrowCapExceeded) } else { Ok(()) },
        }
    }
}

/// Checks a borrow of `amount` against the pool and per-user borrow caps.
pub fn enforce_borrow_cap(config: &CapConfig, pool_borrowed: i128, user_borrowed: i128, amount: i128, collateral_amount: i128) -> (r: Result<(), MetaTxError>)
    ensures
        r == borrow_cap_spec(*config, pool_borrowed as int, user_borrowed as int, amount as int, collateral_amount as int),
{
    let new_pool = checked_add(pool_borrowed, amount)?;
    let new_user = checked_add(user_borrowed, amount)?;
    if new_pool > config.pool_borrow_cap {
        return Err(MetaTxError::PoolBorrowCapExceeded);
    }
    let user_cap = cap_from_bps(collateral_amount, config.user_borrow_cap_bps)?;
    if new_user > user_cap {
        return Err(MetaTxError::UserBorrowCapExceeded);
    }
    Ok(())
}

/// New (pool, user) totals after recording `amount`.
pub fn record_usage(pool_total: i128, user_total: i128, amount: i128) -> (r: Result<(i128, i128), MetaTxError>)
    ensures
        r == (if fits_i128(pool_total + amount) && fits_i128(user_total + amount) {
            Ok(((pool_total + amount) as i128, (user_total + amount) as i128))
        } else {
            Err(MetaTxError::ArithmeticOverflow)
        }),
{
    let p = checked_add(pool_total, amount)?;
    let u = checked_add(user_total, amount)?;
    Ok((p, u))
}

/// Assembles the cap-usage report of a user on an asset.
pub fn get_cap_utilization(
    asset: AccountId,
    user: AccountId,
    config: &CapConfig,
    user_supplied: i128,
    user_borrowed: i128,
    pool_supplied: i128,
    pool_borrowed: i128,
) -> (r: CapUtilization)
    ensures
        r == (CapUtilization {
            asset, user, user_supplied, user_borrowed, pool_supplied, pool_borrowed,
            user_supply_cap_bps: config.user_supply_cap_bps,
            user_borrow_cap_bps: config.user_borrow_cap_bps,
            pool_supply_cap: config.pool_supply_cap,
            pool_borrow_cap: config.pool_borrow_cap,
        }),
{
    CapUtilization {
        asset, user, user_supplied, user_borrowed, pool_supplied, pool_borrowed,
        user_supply_cap_bps: config.user_supply_cap_bps,
        user_borrow_cap_bps: config.user_borrow_cap_bps,
        pool_supply_cap: config.pool_supply_cap,
        pool_borrow_cap: config.pool_borrow_cap,
    }
}

/// Opening checks of a delegated batch, in order: deadline (not expired, see
/// `expired_at`),
/// nonce equal to the delegator's current nonce, a configured delegation registry.
/// Success yields the next nonce to store and the registry to consult.
pub open spec fn begin_spec(now: u64, deadline: u64, nonce: u64, current_nonce: u64, registry: Option<AccountId>) -> Result<(u64, AccountId), MetaTxError> {
    if expired_at(now, deadline) {
        Err(MetaTxError::Expired)
    } else if nonce != current_nonce {
        Err(MetaTxError::InvalidNonce)
    } else if registry is None {
        Err(MetaTxError::DelegationMissing)
    } else {
        Ok(((current_nonce + 1) as u64, registry.unwrap()))
    }
}

/// Opening checks of `execute_delegated`.
pub fn begin_delegated(now: u64, deadline: u64, nonce: u64, current_nonce: u64, registry: Option<AccountId>) -> (r: Result<(u64, AccountId), MetaTxError>)
    requires
        !expired_at(now, deadline) && nonce == current_nonce ==> current_nonce < u64::MAX,
    ensures
        r == begin_spec(now, deadline, nonce, current_nonce, registry),
{
    if require_deadline(now, deadline, MetaTxError::Expired).is_err() {
        return Err(MetaTxError::Expired);
    }
    if nonce != current_nonce {
        return Err(MetaTxError::InvalidNonce);
    }
    match registry {
        None => Err(MetaTxError::DelegationMissing),
        Some(reg) => Ok((current_nonce + 1, reg)),
    }
}

/// Checks of one delegated call before it is executed: the registry's verdict,
/// the pause switch of the action, the presence of collateral figures for a
/// borrow, and the caps of supply-side and borrow actions.
pub fn check_delegated_call(
    call: &Call,
    permitted: bool,
    paused: bool,
    config: &CapConfig,
    pool_total: i128,
    user_total: i128,
) -> (r: Result<(), MetaTxError>)
    ensures
        !permitted ==> r == Err::<(), MetaTxError>(MetaTxError::PermissionDenied),
        permitted && paused ==> r == Err::<(), MetaTxError>(MetaTxError::Unauthorized),
        permitted && !paused ==> r == (match call.action {
            Action::Deposit | Action::DepositCollateral => supply_cap_spec(*config, pool_total as int, user_total as int, call.amount as int),
            Action::Borrow => if call.collateral_asset is None || call.collateral_amount is None {
                Err(MetaTxError::Unauthorized)
            } else {
                borrow_cap_spec(*config, pool_total as int, user_total as int, call.amount as int, call.collateral_amount.unwrap() as int)
            },
            _ => Ok(()),
        }),
{
    if !permitted {
        return Err(MetaTxError::PermissionDenied);
    }
    if paused {
        return Err(MetaTxError::Unauthorized);
    }
    match call.action {
        Action::Deposit | Action::DepositCollateral => enforce_supply_cap(config, pool_total, user_total, call.amount),
        Action::Borrow => {
            if call.collateral_asset.is_none() {
                return Err(MetaTxError::Unauthorized);
            }
            match call.collateral_amount {
                None => Err(MetaTxError::Unauthorized),
                Some(c) => enforce_borrow_cap(config, pool_total, user_total, call.amount, c),
            }
        },
        _ => Ok(()),
    }
}

/// Stores the delegation registry.
pub fn set_delegation_registry(stored: &mut Option<AccountId>, registry: AccountId)
    ensures
        *final(stored) == Some(registry),
{
    *stored = Some(registry);
}

/// The stored delegation registry.
pub fn get_delegation_registry(stored: &Option<AccountId>) -> (r: Option<AccountId>)
    ensures
        r == *stored,
{
    *stored
}

/// An accepted supply never takes the pool above its supply cap.
pub proof fn lemma_supply_within_pool_cap(c: CapConfig, pool_supplied: int, user_supplied: int, amount: int)
    requires
        supply_cap_spec(c, pool_supplied, user_supplied, amount) is Ok,
    ensures
        pool_supplied + amount <= c.pool_supply_cap,
{
}

/// An accepted borrow never takes the pool above its borrow cap.
pub proof fn lemma_borrow_within_pool_cap(c: CapConfig, pool_borrowed: int, user_borrowed: int, amount: int, collateral: int)
    requires
        borrow_cap_spec(c, pool_borrowed, user_borrowed, amount, collateral) is Ok,
    ensures
        pool_borrowed + amount <= c.pool_borrow_cap,
{
}

} // verus!
