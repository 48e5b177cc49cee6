//! Risk dashboard figures: pool health, per-position risk levels, oracle
//! health, a weighted protocol safety score and metric trends.
use vstd::prelude::*;
use crate::math::{tdiv, fits_i128};
use crate::types::AccountId;

verus! {

/// Health figures of a pool.
#[derive(Clone, Debug)]
pub struct PoolHealthMetrics {
    pub pool_id: AccountId,
    pub utilization_rate: i128,
    pub total_supplied: i128,
    pub total_borrowed: i128,
    pub available_liquidity: i128,
    pub average_ltv: i128,
    pub concentration_risk: i128,
}

/// Risk classification of a health factor.
#[derive(Clone, Debug, PartialEq, Eq, Structural)]
pub enum RiskLevel {
    Safe,
    Warning,
    Danger,
    Critical,
}

/// One position's liquidation risk.
#[derive(Clone, Debug)]
pub struct LiquidationRiskEntry {
    pub user: AccountId,
    pub pool_id: AccountId,
    pub health_factor: i128,
    pub collateral_value: i128,
    pub debt_value: i128,
    pub liquidation_threshold: i128,
    pub risk_level: RiskLevel,
}

/// Health of one oracle feed.
#[derive(Clone, Debug)]
pub struct OracleHealthStatus {
    pub asset: AccountId,
    pub last_update_timestamp: u64,
    pub price: i128,
    pub staleness_seconds: u64,
    pub deviation_from_twap: i128,
    pub is_healthy: bool,
}

/// Weighted protocol safety score.
#[derive(Clone, Debug)]
pub struct ProtocolSafetyScore {
    pub overall_score: i128,
    pub liquidity_score: i128,
    pub solvency_score: i128,
    pub oracle_health_score: i128,
    pub concentration_score: i128,
    pub timestamp: u64,
}

/// Alerting thresholds.
#[derive(Clone, Debug)]
pub struct AlertConfig {
    pub health_factor_threshold: i128,
    pub utilization_threshold: i128,
    pub concentration_threshold: i128,
    pub oracle_staleness_threshold: u64,
}

/// The change of a metric between two readings.
#[derive(Clone, Debug)]
pub struct RiskMetricTrend {
    pub metric_name: String,
    pub current_value: i128,
    pub previous_value: i128,
    pub change_percentage: i128,
    pub timestamp: u64,
}

/// Placeholder concentration figure reported for every pool.
fn calculate_concentration_risk(_pool_id: AccountId) -> (r: i128)
    ensures
        r == 5_000,
{
    5_000
}

/// Placeholder average LTV reported for every pool.
fn calculate_average_ltv(_pool_id: AccountId) -> (r: i128)
    ensures
        r == 6_000,
{
    6_000
}

/// Placeholder TWAP deviation reported for every asset.
fn calculate_twap_deviation(_asset: AccountId, _current_price: i128) -> (r: i128)
    ensures
        r == 200,
{
    200
}

/// Health figures of a pool: utilization `borrowed * 10 000 / supplied`
/// (0 for an empty pool) and available liquidity `supplied - borrowed`.
pub fn calculate_pool_health(pool_id: AccountId, total_supplied: i128, total_borrowed: i128) -> (r: PoolHealthMetrics)
    requires
        fits_i128(total_borrowed * 10_000),
        fits_i128(total_supplied - total_borrowed),
    ensures
        r.pool_id == pool_id,
        r.utilization_rate == (if total_supplied > 0 { tdiv(total_borrowed * 10_000, total_supplied as int) } else { 0 }),
        r.total_supplied == total_supplied,
        r.total_borrowed == total_borrowed,
        r.available_liquidity == total_supplied - total_borrowed,
        r.average_ltv == 6_000,
        r.concentration_risk == 5_000,
{
    let utilization_rate = if total_supplied > 0 {
        let p = total_borrowed * 10_000;
        match p.checked_div(total_supplied) { Some(q) => q, None => 0 }
    } else {
        0
    };
    let available_liquidity = total_supplied - total_borrowed;
    PoolHealthMetrics {
        pool_id,
        utilization_rate,
        total_supplied,
        total_borrowed,
        available_liquidity,
        average_ltv: calculate_average_ltv(pool_id),
        concentration_risk: calculate_concentration_risk(pool_id),
    }
}

/// Risk level of a health factor (bps): >= 1.5 safe, >= 1.2 warning, >= 1.0 danger, else critical.
pub open spec fn risk_level_spec(health_factor: i128) -> RiskLevel {
    if health_factor >= 15_000 {
        RiskLevel::Safe
    } else if health_factor >= 12_000 {
        RiskLevel::Warning
    } else if health_factor >= 10_000 {
        RiskLevel::Danger
    } else {
        RiskLevel::Critical
    }
}

/// Classifies a health factor.
pub fn determine_risk_level(health_factor: i128) -> (r: RiskLevel)
    ensures
        r == risk_level_spec(health_factor),
{
    if health_factor >= 15_000 {
        RiskLevel::Safe
    } else if health_factor >= 12_000 {
        RiskLevel::Warning
    } else if health_factor >= 10_000 {
        RiskLevel::Danger
    } else {
        RiskLevel::Critical
    }
}

/// A position's risk entry, classified by its health factor.
pub fn calculate_liquidation_risk(
    user: AccountId,
    pool_id: AccountId,
    health_factor: i128,
    collateral_value: i128,
    debt_value: i128,
    liquidation_threshold: i128,
) -> (r: LiquidationRiskEntry)
    ensures
        r.user == user,
        r.pool_id == pool_id,
        r.health_factor == health_factor,
        r.collateral_value == collateral_value,
        r.debt_value == debt_value,
        r.liquidation_threshold == liquidation_threshold,
        r.risk_level == risk_level_spec(health_factor),
{
    let risk_level = determine_risk_level(health_factor);
    LiquidationRiskEntry { user, pool_id, health_factor, collateral_value, debt_value, liquidation_threshold, risk_level }
}

/// Oracle feed health at `now`: healthy when not older than the threshold and
/// within 10% of the TWAP.
pub fn check_oracle_health(asset: AccountId, price: i128, last_update: u64, staleness_threshold: u64, now: u64) -> (r: OracleHealthStatus)
    ensures
        r.asset == asset,
        r.last_update_timestamp == last_update,
        r.price == price,
        r.staleness_seconds == (if now > last_update { (now - last_update) as u64 } else { 0 }),
        r.deviation_from_twap == 200,
        r.is_healthy == (r.staleness_seconds <= staleness_threshold),
{
    let staleness_seconds = if now > last_update { now - last_update } else { 0 };
    let twap_deviation = calculate_twap_deviation(asset, price);
    let abs_dev = if twap_deviation < 0 { -twap_deviation } else { twap_deviation };
    let is_healthy = staleness_seconds <= staleness_threshold && abs_dev <= 1_000;
    OracleHealthStatus {
        asset,
        last_update_timestamp: last_update,
        price,
        staleness_seconds,
        deviation_from_twap: twap_deviation,
        is_healthy,
    }
}

/// Overall score: 25% liquidity, 35% solvency, 20% oracle health, 20% concentration.
pub open spec fn safety_score_spec(l: int, s: int, o: int, c: int) -> int {
    tdiv(l * 25 + s * 35 + o * 20 + c * 20, 100)
}

/// Weighted protocol safety score stamped at `now`.
pub fn calculate_protocol_safety_score(
    liquidity_score: i128,
    solvency_score: i128,
    oracle_score: i128,
    concentration_score: i128,
    now: u64,
) -> (r: ProtocolSafetyScore)
    requires
        fits_i128(liquidity_score * 25),
        fits_i128(solvency_score * 35),
        fits_i128(oracle_score * 20),
        fits_i128(concentration_score * 20),
        fits_i128(liquidity_score * 25 + solvency_score * 35),
        fits_i128(liquidity_score * 25 + solvency_score * 35 + oracle_score * 20),
        fits_i128(liquidity_score * 25 + solvency_score * 35 + oracle_score * 20 + concentration_score * 20),
    ensures
        r.overall_score == safety_score_spec(liquidity_score as int, solvency_score as int, oracle_score as int, concentration_score as int),
        r.liquidity_score == liquidity_score,
        r.solvency_score == solvency_score,
        r.oracle_health_score == oracle_score,
        r.concentration_score == concentration_score,
        r.timestamp == now,
{
    let total = liquidity_score * 25 + solvency_score * 35 + oracle_score * 20 + concentration_score * 20;
    let overall_score = match total.checked_div(100) { Some(q) => q, None => 0 };
    ProtocolSafetyScore {
        overall_score,
        liquidity_score,
        solvency_score,
        oracle_health_score: oracle_score,
        concentration_score,
        timestamp: now,
    }
}

/// Relative change in bps: `(current - previous) * 10 000 / previous`, 0 from a zero base.
pub open spec fn trend_spec(current: int, previous: int) -> int {
    if previous != 0 { tdiv((current - previous) * 10_000, previous) } else { 0 }
}

/// The trend of a metric between two readings, stamped at `now`.
pub fn calculate_metric_trend(metric_name: String, current_value: i128, previous_value: i128, now: u64) -> (r: RiskMetricTrend)
    requires
        fits_i128(current_value - previous_value),
        fits_i128((current_value - previous_value) * 10_000),
        previous_value != 0 ==> fits_i128(trend_spec(current_value as int, previous_value as int)),
    ensures
        r.metric_name@ == metric_name@,
        r.current_value == current_value,
        r.previous_value == previous_value,
        r.change_percentage == trend_spec(current_value as int, previous_value as int),
        r.timestamp == now,
{
    let change_percentage = if previous_value != 0 {
        let d = (current_value - previous_value) * 10_000;
        match d.checked_div(previous_value) { Some(q) => q, None => 0 }
    } else {
        0
    };
    RiskMetricTrend { metric_name, current_value, previous_value, change_percentage, timestamp: now }
}

/// Liquidation risks tracked for a pool (none are tracked yet).
pub fn get_pool_liquidation_risks(_pool: AccountId) -> (r: Vec<LiquidationRiskEntry>)
    ensures
        r@.len() == 0,
{
    Vec::new()
}

/// The liquidation risks of each distinct pool, pools in first-seen order.
pub fn get_liquidation_heatmap(pools: &Vec<AccountId>) -> (r: Vec<(AccountId, Vec<LiquidationRiskEntry>)>)
    ensures
        forall|i: int| 0 <= i < r@.len() ==> pools@.contains(#[trigger] r@[i].0) && r@[i].1@.len() == 0,
        forall|p: AccountId| pools@.contains(p) ==> exists|i: int| 0 <= i < r@.len() && #[trigger] r@[i].0 == p,
        forall|i: int, j: int| 0 <= i < j < r@.len() ==> r@[i].0 != r@[j].0,
{
    let mut r: Vec<(AccountId, Vec<LiquidationRiskEntry>)> = Vec::new();
    let mut seen: Vec<AccountId> = Vec::new();
    let mut k: usize = 0;
    while k < pools.len()
        invariant
            k <= pools@.len(),
            seen@.len() == r@.len(),
            forall|i: int| 0 <= i < r@.len() ==> #[trigger] r@[i].0 == seen@[i],
            forall|i: int| 0 <= i < r@.len() ==> pools@.contains(#[trigger] r@[i].0) && r@[i].1@.len() == 0,
            forall|j: int| 0 <= j < k ==> seen@.contains(#[trigger] pools@[j]),
            forall|i: int, j: int| 0 <= i < j < r@.len() ==> r@[i].0 != r@[j].0,
        decreases pools@.len() - k,
    {
        let p = pools[k];
        let ghost old_seen = seen@;
        if !crate::table::vec_contains(&seen, p) {
            let risks = get_pool_liquidation_risks(p);
            proof {
                assert(pools@.contains(pools@[k as int]));
            }
            r.push((p, risks));
            seen.push(p);
            proof {
                assert(seen@ == old_seen.push(p));
                assert forall|j: int| 0 <= j < k + 1 implies seen@.contains(#[trigger] pools@[j]) by {
                    if j < k {
                        assert(old_seen.contains(pools@[j]));
                        let w = choose|w: int| 0 <= w < old_seen.len() && old_seen[w] == pools@[j];
                        assert(seen@[w] == pools@[j]);
                    } else {
                        assert(seen@[old_seen.len() as int] == pools@[j]);
                    }
                }
            }
        } else {
            proof {
                assert forall|j: int| 0 <= j < k + 1 implies seen@.contains(#[trigger] pools@[j]) by {
                    if j == k {
                        assert(seen@.contains(p));
                    }
                }
            }
        }
        k = k + 1;
    }
    proof {
        assert forall|p: AccountId| pools@.contains(p) implies exists|i: int| 0 <= i < r@.len() && #[trigger] r@[i].0 == p by {
            let j = choose|j: int| 0 <= j < pools@.len() && pools@[j] == p;
            assert(seen@.contains(pools@[j]));
            let w = choose|w: int| 0 <= w < seen@.len() && seen@[w] == pools@[j];
            assert(r@[w].0 == p);
        }
    }
    r
}

/// Risk levels only worsen as the health factor falls.
pub proof fn lemma_risk_level_monotone(a: i128, b: i128)
    requires
        a <= b,
        risk_level_spec(b) == RiskLevel::Critical,
    ensures
        risk_level_spec(a) == RiskLevel::Critical,
{
}

} // verus!
