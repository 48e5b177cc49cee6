//! Margin accounts in isolated and cross mode: margin-call levels and
//! liquidation of unhealthy positions.
use vstd::prelude::*;
use crate::math::{tdiv, fits_i128};
use crate::types::AccountId;

verus! {

/// Margin mode of an account.
#[derive(Copy, Clone, Debug, PartialEq, Eq, Structural)]
pub enum MarginMode {
    Isolated,
    Cross,
}

/// Margin-call severity.
#[derive(Copy, Clone, Debug, PartialEq, Eq, Structural)]
pub enum MarginCallLevel {
    Safe,
    Warning,
    Liquidation,
    ForcedClose,
}

/// A leveraged position.
#[derive(Clone, Debug, PartialEq, Eq, Structural)]
pub struct Position {
    pub asset: AccountId,
    pub amount: i128,
    pub debt: i128,
    pub entry_price: i128,
}

/// A margin account.
pub struct MarginAccount {
    pub owner: AccountId,
    pub mode: MarginMode,
    pub positions: Vec<Position>,
    pub total_collateral_value: i128,
    pub total_debt_value: i128,
}

impl MarginAccount {
    pub fn is_isolated(&self) -> (r: bool)
        ensures
            r == (self.mode == MarginMode::Isolated),
    {
        self.mode == MarginMode::Isolated
    }

    pub fn is_cross(&self) -> (r: bool)
        ensures
            r == (self.mode == MarginMode::Cross),
    {
        self.mode == MarginMode::Cross
    }
}

/// Margin-call level of a debt ratio in percent: >= 90 forced close, >= 80
/// liquidation, >= 70 warning, else safe.
pub open spec fn level_of_ratio(ratio: int) -> MarginCallLevel {
    if ratio >= 90 {
        MarginCallLevel::ForcedClose
    } else if ratio >= 80 {
        MarginCallLevel::Liquidation
    } else if ratio >= 70 {
        MarginCallLevel::Warning
    } else {
        MarginCallLevel::Safe
    }
}

fn level_for(ratio: i128) -> (r: MarginCallLevel)
    ensures
        r == level_of_ratio(ratio as int),
{
    if ratio >= 90 {
        MarginCallLevel::ForcedClose
    } else if ratio >= 80 {
        MarginCallLevel::Liquidation
    } else if ratio >= 70 {
        MarginCallLevel::Warning
    } else {
        MarginCallLevel::Safe
    }
}

/// `max(v, 1)`.
pub open spec fn at_least_one(v: int) -> int {
    if v > 1 { v } else { 1 }
}

/// Cross-margin level: debt ratio over the whole account's collateral.
pub open spec fn cross_level_spec(collateral: int, debt: int) -> MarginCallLevel {
    if debt == 0 {
        MarginCallLevel::Safe
    } else {
        level_of_ratio(tdiv(debt * 100, at_least_one(collateral)))
    }
}

/// Margin-call level of a cross-margin account.
pub fn check_cross_margin_health(account: &MarginAccount) -> (r: MarginCallLevel)
    requires
        fits_i128(account.total_debt_value * 100),
    ensures
        r == cross_level_spec(account.total_collateral_value as int, account.total_debt_value as int),
{
    if account.total_debt_value == 0 {
        return MarginCallLevel::Safe;
    }
    let denom = if account.total_collateral_value > 1 { account.total_collateral_value } else { 1 };
    let p = account.total_debt_value * 100;
    let ratio = p / denom;
    level_for(ratio)
}

/// Liquidates a cross-margin account at liquidation level or worse: every
/// position is closed and its totals reset.
pub fn liquidate_cross_margin_account(account: &mut MarginAccount) -> (r: Result<(), &'static str>)
    requires
        fits_i128(old(account).total_debt_value * 100),
    ensures
        ({
            let lvl = cross_level_spec(old(account).total_collateral_value as int, old(account).total_debt_value as int);
            r == (if old(account).mode != MarginMode::Cross { Err("Account is not in cross margin mode") }
                else if lvl == MarginCallLevel::Safe || lvl == MarginCallLevel::Warning { Err("Account is healthy, cannot liquidate") }
                else { Ok(()) })
        }),
        r is Err ==> final(account).positions@ == old(account).positions@
            && final(account).total_collateral_value == old(account).total_collateral_value
            && final(account).total_debt_value == old(account).total_debt_value,
        r is Ok ==> final(account).positions@.len() == 0 && final(account).total_collateral_value == 0
            && final(account).total_debt_value == 0,
        final(account).owner == old(account).owner,
        final(account).mode == old(account).mode,
{
    if !account.is_cross() {
        return Err("Account is not in cross margin mode");
    }
    let health = check_cross_margin_health(account);
    if health == MarginCallLevel::Safe || health == MarginCallLevel::Warning {
        return Err("Account is healthy, cannot liquidate");
    }
    account.positions = Vec::new();
    account.total_collateral_value = 0;
    account.total_debt_value = 0;
    Ok(())
}

/// Isolated level: debt ratio over the position's own collateral `amount * price / 10 000`.
pub open spec fn isolated_level_spec(p: Position, price: int) -> MarginCallLevel {
    if p.debt == 0 {
        MarginCallLevel::Safe
    } else {
        level_of_ratio(tdiv(p.debt * 100, at_least_one(tdiv(p.amount * price, 10_000))))
    }
}

/// Margin-call level of one isolated position at `current_price`.
pub fn check_isolated_position_health(position: &Position, current_price: i128) -> (r: MarginCallLevel)
    requires
        fits_i128(position.amount * current_price),
        fits_i128(position.debt * 100),
    ensures
        r == isolated_level_spec(*position, current_price as int),
{
    if position.debt == 0 {
        return MarginCallLevel::Safe;
    }
    let v = position.amount * current_price;
    let collateral_value = match v.checked_div(10_000) { Some(q) => q, None => 0 };
    let denom = if collateral_value > 1 { collateral_value } else { 1 };
    let p = position.debt * 100;
    let ratio = p / denom;
    level_for(ratio)
}

/// Liquidates one isolated position at liquidation level or worse by removing it.
pub fn liquidate_isolated_position(account: &mut MarginAccount, position_index: u32, current_price: i128) -> (r: Result<(), &'static str>)
    requires
        forall|i: int| 0 <= i < old(account).positions@.len() ==>
            fits_i128(#[trigger] old(account).positions@[i].amount * current_price)
            && fits_i128(old(account).positions@[i].debt * 100),
    ensures
        r == (if old(account).mode != MarginMode::Isolated { Err("Account is not in isolated mode") }
            else if position_index as int >= old(account).positions@.len() { Err("Invalid position index") }
            else if ({
                let lvl = isolated_level_spec(old(account).positions@[position_index as int], current_price as int);
                lvl == MarginCallLevel::Safe || lvl == MarginCallLevel::Warning
            }) { Err("Position is healthy, cannot liquidate") }
            else { Ok(()) }),
        final(account).positions@ == (if r is Ok { old(account).positions@.remove(position_index as int) } else { old(account).positions@ }),
        final(account).owner == old(account).owner,
        final(account).mode == old(account).mode,
        final(account).total_collateral_value == old(account).total_collateral_value,
        final(account).total_debt_value == old(account).total_debt_value,
{
    if !account.is_isolated() {
        return Err("Account is not in isolated mode");
    }
    if position_index as usize >= account.positions.len() {
        return Err("Invalid position index");
    }
    let health = check_isolated_position_health(&account.positions[position_index as usize], current_price);
    if health == MarginCallLevel::Safe || health == MarginCallLevel::Warning {
        return Err("Position is healthy, cannot liquidate");
    }
    account.positions.remove(position_index as usize);
    Ok(())
}

/// The isolated collateral value: `amount * price / 10 000`, at least 1.
pub open spec fn isolated_collateral(amount: int, price: int) -> int {
    let c = (amount * price) / 10_000;
    if c > 1 { c } else { 1 }
}

/// How severe a margin-call level is.
pub open spec fn severity(l: MarginCallLevel) -> int {
    match l {
        MarginCallLevel::Safe => 0,
        MarginCallLevel::Warning => 1,
        MarginCallLevel::Liquidation => 2,
        MarginCallLevel::ForcedClose => 3,
    }
}

proof fn lemma_ratio_at_least(x: int, c: int, k: int)
    requires
        x >= 0,
        c > 0,
        k >= 0,
    ensures
        (x / c >= k) <==> (x >= k * c),
{
    vstd::arithmetic::div_mod::lemma_fundamental_div_mod(x, c);
    vstd::arithmetic::div_mod::lemma_mod_pos_bound(x, c);
    let q = x / c;
    if q >= k {
        assert(x >= k * c) by (nonlinear_arith) requires x == c * q + x % c, x % c >= 0, q >= k, c > 0;
    } else {
        assert(x < k * c) by (nonlinear_arith) requires x == c * q + x % c, x % c < c, q < k, c > 0;
    }
}

/// The isolated margin level of a position with debt, at a non-negative
/// amount and price, compares `debt * 100` with the position's collateral
/// value at the current price, `c = max(1, amount * price / 10 000)`: forced
/// close from 90% of it, liquidation from 80%, warning from 70%, safe below.
/// A lower price therefore never gives a safer level.
pub proof fn lemma_isolated_level_uses_price(p: Position, price: int, lower_price: int)
    requires
        p.debt > 0,
        p.amount >= 0,
        0 <= lower_price <= price,
    ensures
        ({
            let c = isolated_collateral(p.amount as int, price);
            let l = isolated_level_spec(p, price);
            &&& (l == MarginCallLevel::ForcedClose) <==> p.debt * 100 >= 90 * c
            &&& (l == MarginCallLevel::Liquidation) <==> (80 * c <= p.debt * 100 && p.debt * 100 < 90 * c)
            &&& (l == MarginCallLevel::Warning) <==> (70 * c <= p.debt * 100 && p.debt * 100 < 80 * c)
            &&& (l == MarginCallLevel::Safe) <==> p.debt * 100 < 70 * c
        }),
        severity(isolated_level_spec(p, lower_price)) >= severity(isolated_level_spec(p, price)),
{
    let a = p.amount as int;
    let x = p.debt * 100;
    assert(a * price >= 0 && a * lower_price >= 0 && a * lower_price <= a * price) by (nonlinear_arith)
        requires a >= 0, 0 <= lower_price <= price;
    vstd::arithmetic::div_mod::lemma_div_is_ordered(a * lower_price, a * price, 10_000);
    vstd::arithmetic::div_mod::lemma_div_pos_is_pos(a * price, 10_000);
    vstd::arithmetic::div_mod::lemma_div_pos_is_pos(a * lower_price, 10_000);
    let c = isolated_collateral(a, price);
    let cl = isolated_collateral(a, lower_price);
    assert(tdiv(a * price, 10_000) == (a * price) / 10_000);
    assert(tdiv(a * lower_price, 10_000) == (a * lower_price) / 10_000);
    assert(at_least_one(tdiv(a * price, 10_000)) == c);
    assert(at_least_one(tdiv(a * lower_price, 10_000)) == cl);
    assert(cl <= c);
    assert(tdiv(x, c) == x / c);
    assert(tdiv(x, cl) == x / cl);
    lemma_ratio_at_least(x, c, 90);
    lemma_ratio_at_least(x, c, 80);
    lemma_ratio_at_least(x, c, 70);
    lemma_ratio_at_least(x, cl, 90);
    lemma_ratio_at_least(x, cl, 80);
    lemma_ratio_at_least(x, cl, 70);
    assert(90 * cl <= 90 * c && 80 * cl <= 80 * c && 70 * cl <= 70 * c);
}

/// The cross-margin level of an account with debt compares `debt * 100`
/// with the account's collateral value (at least 1): forced close from 90%
/// of it, liquidation from 80%, warning from 70%, safe below; more collateral
/// never gives a more severe level.
pub proof fn lemma_cross_level_uses_collateral(collateral: int, more_collateral: int, debt: int)
    requires
        debt > 0,
        collateral <= more_collateral,
    ensures
        ({
            let c = if collateral > 1 { collateral } else { 1 };
            let l = cross_level_spec(collateral, debt);
            &&& (l == MarginCallLevel::ForcedClose) <==> debt * 100 >= 90 * c
            &&& (l == MarginCallLevel::Liquidation) <==> (80 * c <= debt * 100 && debt * 100 < 90 * c)
            &&& (l == MarginCallLevel::Warning) <==> (70 * c <= debt * 100 && debt * 100 < 80 * c)
            &&& (l == MarginCallLevel::Safe) <==> debt * 100 < 70 * c
        }),
        severity(cross_level_spec(more_collateral, debt)) <= severity(cross_level_spec(collateral, debt)),
{
    let x = debt * 100;
    let c = at_least_one(collateral);
    let cm = at_least_one(more_collateral);
    assert(c <= cm);
    assert(tdiv(x, c) == x / c);
    assert(tdiv(x, cm) == x / cm);
    lemma_ratio_at_least(x, c, 90);
    lemma_ratio_at_least(x, c, 80);
    lemma_ratio_at_least(x, c, 70);
    lemma_ratio_at_least(x, cm, 90);
    lemma_ratio_at_least(x, cm, 80);
    lemma_ratio_at_least(x, cm, 70);
    assert(90 * c <= 90 * cm && 80 * c <= 80 * cm && 70 * c <= 70 * cm);
}

} // verus!
