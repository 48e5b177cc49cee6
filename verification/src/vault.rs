//! Collateral vault: deposits and withdrawals under a reentrancy guard,
//! with caps, minimums and positions that expire after 30 days of inactivity.
use vstd::prelude::*;
use crate::math::fits_i128;
use crate::types::AccountId;

verus! {

/// Whether a guarded entry point is currently executing.
#[derive(Clone, Copy, PartialEq, Eq, Debug, Structural)]
pub enum GuardState {
    NotEntered,
    Entered,
}

/// The guarded entry points.
#[derive(Clone, Copy, PartialEq, Eq, Debug, Structural)]
pub enum GuardKey {
    DepositGuard,
    WithdrawGuard,
    BorrowGuard,
    RepayGuard,
    LiquidateGuard,
    FlashLoanGuard,
    DepositCollateralGuard,
}

/// Decodes a stored guard word: 1 is entered, anything else (or nothing) is not.
pub fn get_guard_state(stored: Option<u32>) -> (r: GuardState)
    ensures
        r == (if stored == Some(1u32) { GuardState::Entered } else { GuardState::NotEntered }),
{
    match stored {
        Some(s) => if s == 1 { GuardState::Entered } else { GuardState::NotEntered },
        None => GuardState::NotEntered,
    }
}

/// The word stored for a guard state.
pub fn guard_state_value(state: GuardState) -> (r: u32)
    ensures
        r == (if state == GuardState::Entered { 1u32 } else { 0u32 }),
{
    match state {
        GuardState::NotEntered => 0,
        GuardState::Entered => 1,
    }
}

/// Entering a guarded section: the guard becomes `Entered` (and returns to
/// `NotEntered` when the section ends). Entering while already inside is a
/// reentrancy, on which the guarded call panics; it is excluded here.
pub fn enter_guard(state: GuardState) -> (r: Result<GuardState, String>)
    requires
        state == GuardState::NotEntered,
    ensures
        r == Ok::<GuardState, String>(GuardState::Entered),
{
    Ok(GuardState::Entered)
}

/// Seconds a position stays alive without activity.
pub const DEPOSIT_POSITION_TTL: u64 = 2_592_000;
/// Seconds a withdraw position stays alive without activity.
pub const WITHDRAW_POSITION_TTL: u64 = 2_592_000;

/// Failures of deposits.
#[derive(Copy, Clone, Debug, PartialEq, Eq, Structural)]
pub enum DepositError {
    InvalidAmount,
    DepositPaused,
    Overflow,
    AssetNotSupported,
    ExceedsDepositCap,
    Unauthorized,
    Reentrancy,
}

/// A user's deposited collateral.
#[derive(Clone, Debug, PartialEq, Eq, Structural)]
pub struct DepositCollateral {
    pub amount: i128,
    pub asset: AccountId,
    pub last_deposit_time: u64,
    /// Expiry timestamp (0 never expires).
    pub expires_at: u64,
}

/// Has a position with this expiry expired at `now`?
pub open spec fn expired(expires_at: u64, now: u64) -> bool {
    expires_at != 0 && expires_at <= now
}

/// A user's position as read: a stored, unexpired record; otherwise an empty one.
pub open spec fn read_deposit_spec(stored: Option<DepositCollateral>, asset: AccountId, now: u64) -> DepositCollateral {
    match stored {
        Some(s) => if expired(s.expires_at, now) {
            DepositCollateral { amount: 0, asset, last_deposit_time: now, expires_at: 0 }
        } else {
            s
        },
        None => DepositCollateral { amount: 0, asset, last_deposit_time: now, expires_at: 0 },
    }
}

/// Reads a deposit position; an expired record reads as empty.
pub fn get_deposit_position(stored: Option<DepositCollateral>, asset: AccountId, now: u64) -> (r: DepositCollateral)
    ensures
        r == read_deposit_spec(stored, asset, now),
{
    match stored {
        Some(s) => if s.expires_at != 0 && s.expires_at <= now {
            DepositCollateral { amount: 0, asset, last_deposit_time: now, expires_at: 0 }
        } else {
            s
        },
        None => DepositCollateral { amount: 0, asset, last_deposit_time: now, expires_at: 0 },
    }
}

/// A user's collateral position.
pub fn get_user_collateral(stored: Option<DepositCollateral>, asset: AccountId, now: u64) -> (r: DepositCollateral)
    ensures
        r == read_deposit_spec(stored, asset, now),
{
    get_deposit_position(stored, asset, now)
}

/// The record to write when cleaning up an expired deposit position (nothing otherwise).
pub fn cleanup_expired_deposit_position(stored: Option<DepositCollateral>, asset: AccountId, now: u64) -> (r: Option<DepositCollateral>)
    ensures
        r == (match stored {
            Some(s) => if expired(s.expires_at, now) {
                Some(DepositCollateral { amount: 0, asset, last_deposit_time: now, expires_at: 0 })
            } else {
                None
            },
            None => None,
        }),
{
    match stored {
        Some(s) => if s.expires_at != 0 && s.expires_at <= now {
            Some(DepositCollateral { amount: 0, asset, last_deposit_time: now, expires_at: 0 })
        } else {
            None
        },
        None => None,
    }
}

/// Saturating `u64` addition.
pub open spec fn sat_add(a: u64, b: u64) -> u64 {
    if a + b > u64::MAX { u64::MAX } else { (a + b) as u64 }
}

fn saturating_add_u64(a: u64, b: u64) -> (r: u64)
    ensures
        r == sat_add(a, b),
{
    match a.checked_add(b) {
        Some(v) => v,
        None => u64::MAX,
    }
}

/// The deposit decision: guard, pause, amount, minimum, cap, then the position update.
pub open spec fn deposit_spec(guard: GuardState, paused: bool, amount: i128, min_deposit: i128, total: i128, cap: i128,
    position: DepositCollateral, asset: AccountId, now: u64) -> Result<(DepositCollateral, i128), DepositError>
{
    if guard == GuardState::Entered {
        Err(DepositError::Reentrancy)
    } else if paused {
        Err(DepositError::DepositPaused)
    } else if amount <= 0 || amount < min_deposit {
        Err(DepositError::InvalidAmount)
    } else if !fits_i128(total + amount) {
        Err(DepositError::Overflow)
    } else if total + amount > cap {
        Err(DepositError::ExceedsDepositCap)
    } else if !fits_i128(position.amount + amount) {
        Err(DepositError::Overflow)
    } else {
        Ok((DepositCollateral {
            amount: (position.amount + amount) as i128,
            asset,
            last_deposit_time: now,
            expires_at: sat_add(now, 2_592_000),
        }, (total + amount) as i128))
    }
}

/// Decides a deposit of `amount`; returns the new position and the new deposit
/// total to persist before the token transfer is made.
pub fn deposit(
    guard: GuardState,
    paused: bool,
    amount: i128,
    min_deposit: i128,
    total_deposits: i128,
    deposit_cap: i128,
    position: DepositCollateral,
    asset: AccountId,
    now: u64,
) -> (r: Result<(DepositCollateral, i128), DepositError>)
    ensures
        r == deposit_spec(guard, paused, amount, min_deposit, total_deposits, deposit_cap, position, asset, now),
{
    if guard == GuardState::Entered {
        return Err(DepositError::Reentrancy);
    }
    if paused {
        return Err(DepositError::DepositPaused);
    }
    if amount <= 0 {
        return Err(DepositError::InvalidAmount);
    }
    if amount < min_deposit {
        return Err(DepositError::InvalidAmount);
    }
    let new_total = match total_deposits.checked_add(amount) {
        None => return Err(DepositError::Overflow),
        Some(t) => t,
    };
    if new_total > deposit_cap {
        return Err(DepositError::ExceedsDepositCap);
    }
    let new_amount = match position.amount.checked_add(amount) {
        None => return Err(DepositError::Overflow),
        Some(a) => a,
    };
    let expires_at = saturating_add_u64(now, DEPOSIT_POSITION_TTL);
    Ok((DepositCollateral { amount: new_amount, asset, last_deposit_time: now, expires_at }, new_total))
}

/// The deposit cap in effect (unlimited when unset).
pub fn get_deposit_cap(stored: Option<i128>) -> (r: i128)
    ensures
        r == (match stored { Some(c) => c, None => i128::MAX }),
{
    match stored {
        Some(c) => c,
        None => i128::MAX,
    }
}

/// Failures of withdrawals.
#[derive(Copy, Clone, Debug, PartialEq, Eq, Structural)]
pub enum WithdrawError {
    InvalidAmount,
    WithdrawPaused,
    InsufficientBalance,
    Reentrancy,
    Overflow,
}

/// A user's withdrawable balance.
#[derive(Clone, Debug, PartialEq, Eq, Structural)]
pub struct WithdrawPosition {
    pub amount: i128,
    pub last_withdraw_time: u64,
    /// Expiry timestamp (0 never expires).
    pub expires_at: u64,
}

/// A withdraw position as read: a stored, unexpired record; otherwise an empty one.
pub open spec fn read_withdraw_spec(stored: Option<WithdrawPosition>, now: u64) -> WithdrawPosition {
    match stored {
        Some(s) => if expired(s.expires_at, now) {
            WithdrawPosition { amount: 0, last_withdraw_time: now, expires_at: 0 }
        } else {
            s
        },
        None => WithdrawPosition { amount: 0, last_withdraw_time: now, expires_at: 0 },
    }
}

/// Reads a withdraw position; an expired record reads as empty.
pub fn get_withdraw_position(stored: Option<WithdrawPosition>, now: u64) -> (r: WithdrawPosition)
    ensures
        r == read_withdraw_spec(stored, now),
{
    match stored {
        Some(s) => if s.expires_at != 0 && s.expires_at <= now {
            WithdrawPosition { amount: 0, last_withdraw_time: now, expires_at: 0 }
        } else {
            s
        },
        None => WithdrawPosition { amount: 0, last_withdraw_time: now, expires_at: 0 },
    }
}

/// The record to write when cleaning up an expired withdraw position (nothing otherwise).
pub fn cleanup_expired_withdraw_position(stored: Option<WithdrawPosition>, now: u64) -> (r: Option<WithdrawPosition>)
    ensures
        r == (match stored {
            Some(s) => if expired(s.expires_at, now) { Some(WithdrawPosition { amount: 0, last_withdraw_time: now, expires_at: 0 }) } else { None },
            None => None,
        }),
{
    match stored {
        Some(s) => if s.expires_at != 0 && s.expires_at <= now {
            Some(WithdrawPosition { amount: 0, last_withdraw_time: now, expires_at: 0 })
        } else {
            None
        },
        None => None,
    }
}

/// Decides a withdrawal of `amount`; returns the new position to persist
/// before the token transfer is made (its amount is the remaining balance).
pub fn withdraw(guard: GuardState, paused: bool, amount: i128, position: WithdrawPosition, now: u64) -> (r: Result<WithdrawPosition, WithdrawError>)
    ensures
        r == (if guard == GuardState::Entered {
            Err(WithdrawError::Reentrancy)
        } else if paused {
            Err(WithdrawError::WithdrawPaused)
        } else if amount <= 0 {
            Err(WithdrawError::InvalidAmount)
        } else if position.amount < amount {
            Err(WithdrawError::InsufficientBalance)
        } else {
            Ok(WithdrawPosition { amount: (position.amount - amount) as i128, last_withdraw_time: now, expires_at: sat_add(now, 2_592_000) })
        }),
{
    if guard == GuardState::Entered {
        return Err(WithdrawError::Reentrancy);
    }
    if paused {
        return Err(WithdrawError::WithdrawPaused);
    }
    if amount <= 0 {
        return Err(WithdrawError::InvalidAmount);
    }
    if position.amount < amount {
        return Err(WithdrawError::InsufficientBalance);
    }
    let remaining = match position.amount.checked_sub(amount) {
        None => return Err(WithdrawError::Overflow),
        Some(v) => v,
    };
    let expires_at = saturating_add_u64(now, WITHDRAW_POSITION_TTL);
    Ok(WithdrawPosition { amount: remaining, last_withdraw_time: now, expires_at })
}

/// Global vault settings.
#[derive(Clone, Copy, Debug, PartialEq, Eq, Structural)]
pub struct VaultSettings {
    pub deposit_cap: Option<i128>,
    pub min_deposit_amount: Option<i128>,
    pub min_withdrawal: Option<i128>,
    pub withdraw_paused: bool,
}

/// Records the deposit cap and minimum deposit.
pub fn initialize_deposit_settings(settings: &mut VaultSettings, deposit_cap: i128, min_deposit_amount: i128) -> (r: Result<(), DepositError>)
    ensures
        r is Ok,
        *final(settings) == (VaultSettings { deposit_cap: Some(deposit_cap), min_deposit_amount: Some(min_deposit_amount), ..*old(settings) }),
{
    settings.deposit_cap = Some(deposit_cap);
    settings.min_deposit_amount = Some(min_deposit_amount);
    Ok(())
}

/// Records the minimum withdrawal.
pub fn initialize_withdraw_settings(settings: &mut VaultSettings, min_withdrawal: i128) -> (r: Result<(), WithdrawError>)
    ensures
        r is Ok,
        *final(settings) == (VaultSettings { min_withdrawal: Some(min_withdrawal), ..*old(settings) }),
{
    settings.min_withdrawal = Some(min_withdrawal);
    Ok(())
}

/// Pauses withdrawals; a request to unpause leaves the switch as it is.
pub fn set_withdraw_paused(settings: &mut VaultSettings, paused: bool) -> (r: Result<(), WithdrawError>)
    ensures
        r is Ok,
        *final(settings) == (if paused { VaultSettings { withdraw_paused: true, ..*old(settings) } } else { *old(settings) }),
{
    if paused {
        settings.withdraw_paused = true;
    }
    Ok(())
}

/// A successful deposit raises the balance by exactly the amount, so that
/// amount can be withdrawn again and the earlier balance remains.
pub proof fn lemma_deposit_then_withdraw(pos: DepositCollateral, amount: i128, min_deposit: i128, total: i128, cap: i128,
    asset: AccountId, now: u64)
    requires
        pos.amount >= 0,
        deposit_spec(GuardState::NotEntered, false, amount, min_deposit, total, cap, pos, asset, now) is Ok,
    ensures
        ({
            let p = deposit_spec(GuardState::NotEntered, false, amount, min_deposit, total, cap, pos, asset, now).unwrap().0;
            &&& p.amount >= amount
            &&& p.amount - amount == pos.amount
        }),
{
}

/// A deposit never takes the total above the cap.
pub proof fn lemma_deposit_respects_cap(g: GuardState, paused: bool, amount: i128, min_deposit: i128, total: i128, cap: i128,
    pos: DepositCollateral, asset: AccountId, now: u64)
    requires
        deposit_spec(g, paused, amount, min_deposit, total, cap, pos, asset, now) is Ok,
    ensures
        deposit_spec(g, paused, amount, min_deposit, total, cap, pos, asset, now).unwrap().1 <= cap,
        deposit_spec(g, paused, amount, min_deposit, total, cap, pos, asset, now).unwrap().1 == total + amount,
{
}

/// A withdrawal never leaves a negative balance.
pub proof fn lemma_withdraw_never_negative(pos: WithdrawPosition, amount: i128, now: u64)
    requires
        amount > 0,
        pos.amount >= amount,
    ensures
        pos.amount - amount >= 0,
{
}

} // verus!
