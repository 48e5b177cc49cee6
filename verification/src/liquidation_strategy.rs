//! Liquidation strategies: governance registers strategies for pools (fixed
//! discount, Dutch auction, TWAP-based, hybrid), switches a pool's strategy
//! or disables one; the liquidation discount of a debt follows from the
//! strategy and, for auctions, from how long the position has been unhealthy.
use vstd::prelude::*;
use crate::math::{fits_i128, tdiv};
use crate::types::AccountId;
use crate::table::Table;

verus! {

/// Kinds of strategies.
#[derive(Copy, Clone, Debug, PartialEq, Eq, Structural)]
pub enum StrategyType {
    FixedDiscount,
    DutchAuction,
    TWAPBased,
    Hybrid,
}

/// A registered strategy.
pub struct LiquidationStrategy {
    pub strategy_type: StrategyType,
    pub pool: AccountId,
    pub parameters: Vec<u8>,
    pub enabled: bool,
    pub created_at: u64,
}

/// Verdict on strategy parameters.
pub struct StrategyValidation {
    pub is_valid: bool,
    pub reason: Vec<u8>,
}

/// A liquidation discount.
#[derive(Copy, Clone, Debug, PartialEq, Eq, Structural)]
pub struct LiquidationDiscount {
    pub base_premium_bps: i128,
    pub calculated_discount: i128,
}

/// Manager state; strategy `k` is stored at index `k - 1`.
pub struct LiquidationStrategyContract {
    pub governance: AccountId,
    pub admin: AccountId,
    pub strategy_count: u32,
    pub strategies: Vec<LiquidationStrategy>,
    pub pool_strategy: Table<AccountId, u64>,
}

/// Strategies are numbered from 1 in order and counted.
pub open spec fn strategies_wf(c: LiquidationStrategyContract) -> bool {
    c.strategies@.len() == c.strategy_count
}

/// Base premium and discount rate (bps) of a strategy after `t` seconds unhealthy:
/// fixed 10%; auction 10% plus 1% per hour; TWAP 12%; hybrid 11% plus 0.5% per two hours.
pub open spec fn rates(kind: StrategyType, t: u64) -> (int, int) {
    match kind {
        StrategyType::FixedDiscount => (1000, 1000),
        StrategyType::DutchAuction => (1000, 1000 + 100 * (t / 3600)),
        StrategyType::TWAPBased => (1200, 1200),
        StrategyType::Hybrid => (1100, 1100 + 50 * (t / 7200)),
    }
}

/// The discount of a debt: `debt * rate / 10 000`, truncated.
pub open spec fn discount_spec(kind: StrategyType, debt_value: i128, t: u64) -> LiquidationDiscount {
    LiquidationDiscount {
        base_premium_bps: rates(kind, t).0 as i128,
        calculated_discount: tdiv(debt_value * rates(kind, t).1, 10000) as i128,
    }
}

/// Discount of a fixed-discount strategy.
pub fn calculate_fixed_discount(debt_value: i128) -> (r: LiquidationDiscount)
    requires
        fits_i128(debt_value * 1000),
    ensures
        r == discount_spec(StrategyType::FixedDiscount, debt_value, 0),
{
    let base_premium: i128 = 1000;
    LiquidationDiscount { base_premium_bps: base_premium, calculated_discount: (debt_value * base_premium) / 10000 }
}

/// Discount of a Dutch auction, growing by 1% per hour unhealthy.
pub fn calculate_dutch_auction(debt_value: i128, time_since_unhealthy: u64) -> (r: LiquidationDiscount)
    requires
        fits_i128(debt_value * rates(StrategyType::DutchAuction, time_since_unhealthy).1),
    ensures
        r == discount_spec(StrategyType::DutchAuction, debt_value, time_since_unhealthy),
{
    let base_premium: i128 = 1000;
    let time_factor = (time_since_unhealthy / 3600) as i128;
    let discount = base_premium + 100 * time_factor;
    LiquidationDiscount { base_premium_bps: base_premium, calculated_discount: (debt_value * discount) / 10000 }
}

/// Discount of a TWAP-based strategy.
pub fn calculate_twap_discount(debt_value: i128) -> (r: LiquidationDiscount)
    requires
        fits_i128(debt_value * 1200),
    ensures
        r == discount_spec(StrategyType::TWAPBased, debt_value, 0),
{
    let base_premium: i128 = 1200;
    LiquidationDiscount { base_premium_bps: base_premium, calculated_discount: (debt_value * base_premium) / 10000 }
}

/// Discount of a hybrid strategy, growing by 0.5% per two hours unhealthy.
pub fn calculate_hybrid_discount(debt_value: i128, time_since_unhealthy: u64) -> (r: LiquidationDiscount)
    requires
        fits_i128(debt_value * rates(StrategyType::Hybrid, time_since_unhealthy).1),
    ensures
        r == discount_spec(StrategyType::Hybrid, debt_value, time_since_unhealthy),
{
    let base_premium: i128 = 1100;
    let time_factor = (time_since_unhealthy / 7200) as i128;
    let discount = base_premium + 50 * time_factor;
    LiquidationDiscount { base_premium_bps: base_premium, calculated_discount: (debt_value * discount) / 10000 }
}

/// Validates strategy parameters; every kind currently accepts any parameters.
pub fn validate_strategy(strategy_type: StrategyType, parameters: &Vec<u8>) -> (r: StrategyValidation)
    ensures
        r.is_valid && r.reason@.len() == 0,
{
    StrategyValidation { is_valid: true, reason: Vec::new() }
}

impl LiquidationStrategyContract {
    /// A manager under `governance`, with no strategies.
    pub fn initialize(governance: AccountId, admin: AccountId) -> (r: Self)
        ensures
            r.governance == governance && r.admin == admin && r.strategy_count == 0,
            r.strategies@.len() == 0,
            r.pool_strategy@ == Map::<AccountId, u64>::empty(),
            strategies_wf(r),
    {
        LiquidationStrategyContract { governance, admin, strategy_count: 0, strategies: Vec::new(), pool_strategy: Table::new() }
    }

    /// Registers an enabled strategy and makes it the pool's strategy.
    pub fn register_strategy(&mut self, pool: AccountId, strategy_type: StrategyType, parameters: Vec<u8>, now: u64) -> (id: u64)
        requires
            strategies_wf(*old(self)),
            old(self).strategy_count < u32::MAX,
        ensures
            strategies_wf(*final(self)),
            id == old(self).strategy_count + 1,
            final(self).strategies@.len() == old(self).strategies@.len() + 1,
            final(self).strategies@.drop_last() == old(self).strategies@,
            final(self).strategies@.last().strategy_type == strategy_type,
            final(self).strategies@.last().pool == pool,
            final(self).strategies@.last().parameters@ == parameters@,
            final(self).strategies@.last().enabled,
            final(self).strategies@.last().created_at == now,
            final(self).pool_strategy@ == old(self).pool_strategy@.insert(pool, id),
    {
        self.strategies.push(LiquidationStrategy { strategy_type, pool, parameters, enabled: true, created_at: now });
        self.strategy_count = self.strategy_count + 1;
        let id = self.strategy_count as u64;
        self.pool_strategy.set(pool, id);
        id
    }

    /// The discount under an enabled strategy.
    pub fn calculate_discount(&self, strategy_id: u64, collateral_value: i128, debt_value: i128, time_since_unhealthy: u64) -> (r: LiquidationDiscount)
        requires
            strategies_wf(*self),
            1 <= strategy_id <= self.strategies@.len(),
            self.strategies@[strategy_id - 1].enabled,
            fits_i128(debt_value * rates(self.strategies@[strategy_id - 1].strategy_type, time_since_unhealthy).1),
        ensures
            r == discount_spec(self.strategies@[strategy_id - 1].strategy_type, debt_value, time_since_unhealthy),
    {
        let kind = self.strategies[(strategy_id - 1) as usize].strategy_type;
        match kind {
            StrategyType::FixedDiscount => calculate_fixed_discount(debt_value),
            StrategyType::DutchAuction => calculate_dutch_auction(debt_value, time_since_unhealthy),
            StrategyType::TWAPBased => calculate_twap_discount(debt_value),
            StrategyType::Hybrid => calculate_hybrid_discount(debt_value, time_since_unhealthy),
        }
    }

    /// Points a pool at an existing strategy.
    pub fn change_pool_strategy(&mut self, pool: AccountId, new_strategy_id: u64)
        requires
            strategies_wf(*old(self)),
            1 <= new_strategy_id <= old(self).strategies@.len(),
        ensures
            strategies_wf(*final(self)),
            final(self).pool_strategy@ == old(self).pool_strategy@.insert(pool, new_strategy_id),
            final(self).strategies == old(self).strategies,
    {
        self.pool_strategy.set(pool, new_strategy_id);
    }

    /// Disables a strategy.
    pub fn disable_strategy(&mut self, strategy_id: u64)
        requires
            strategies_wf(*old(self)),
            1 <= strategy_id <= old(self).strategies@.len(),
        ensures
            strategies_wf(*final(self)),
            final(self).strategies@.len() == old(self).strategies@.len(),
            !final(self).strategies@[strategy_id - 1].enabled,
            final(self).strategies@[strategy_id - 1].strategy_type == old(self).strategies@[strategy_id - 1].strategy_type,
            final(self).strategies@[strategy_id - 1].pool == old(self).strategies@[strategy_id - 1].pool,
            forall|i: int| 0 <= i < old(self).strategies@.len() && i != strategy_id - 1
                ==> #[trigger] final(self).strategies@[i] == old(self).strategies@[i],
            final(self).pool_strategy == old(self).pool_strategy,
    {
        let idx = (strategy_id - 1) as usize;
        let mut s = self.strategies.remove(idx);
        s.enabled = false;
        self.strategies.insert(idx, s);
    }

    /// A registered strategy.
    pub fn get_strategy(&self, strategy_id: u64) -> (r: &LiquidationStrategy)
        requires
            1 <= strategy_id <= self.strategies@.len(),
        ensures
            *r == self.strategies@[strategy_id - 1],
    {
        let n = self.strategies.len();
        assert(strategy_id - 1 < n);
        let idx = (strategy_id - 1) as usize;
        &self.strategies[idx]
    }

    /// The strategy of a pool.
    pub fn get_pool_strategy(&self, pool: AccountId) -> (r: Option<u64>)
        ensures
            r == (if self.pool_strategy@.contains_key(pool) { Some(self.pool_strategy@[pool]) } else { None }),
    {
        self.pool_strategy.get(&pool)
    }
}

/// Auction discounts never decrease as the position stays unhealthy longer
/// (for a non-negative debt).
pub proof fn lemma_auction_discount_monotone(debt_value: i128, t1: u64, t2: u64)
    requires
        debt_value >= 0,
        t1 <= t2,
    ensures
        rates(StrategyType::DutchAuction, t1).1 <= rates(StrategyType::DutchAuction, t2).1,
        rates(StrategyType::Hybrid, t1).1 <= rates(StrategyType::Hybrid, t2).1,
        tdiv(debt_value * rates(StrategyType::DutchAuction, t1).1, 10000)
            <= tdiv(debt_value * rates(StrategyType::DutchAuction, t2).1, 10000),
{
    let a = rates(StrategyType::DutchAuction, t1).1;
    let b = rates(StrategyType::DutchAuction, t2).1;
    assert(t1 / 3600 <= t2 / 3600) by (nonlinear_arith) requires t1 <= t2;
    assert(t1 / 7200 <= t2 / 7200) by (nonlinear_arith) requires t1 <= t2;
    assert(0 <= debt_value * a <= debt_value * b) by (nonlinear_arith) requires debt_value >= 0, 0 <= a <= b;
    assert((debt_value * a) / 10000 <= (debt_value * b) / 10000) by (nonlinear_arith)
        requires 0 <= debt_value * a <= debt_value * b;
}

} // verus!
