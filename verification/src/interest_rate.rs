//! Kinked (jump-rate) borrow-rate model driven by pool utilization, with an
//! admin-configurable parameter set.
use vstd::prelude::*;
use crate::math::{tdiv, fits_i128};
use crate::types::AccountId;

verus! {

const BPS_SCALE: i128 = 10_000;

/// Failures of the rate model.
#[derive(Copy, Clone, Debug, PartialEq, Eq, Structural)]
pub enum InterestRateError {
    Unauthorized,
    InvalidParameter,
    Overflow,
    DivisionByZero,
}

/// Rate-model parameters.
#[derive(Clone, Debug, PartialEq, Eq, Structural)]
pub struct InterestRateConfig {
    pub base_rate_bps: i128,
    pub kink_utilization_bps: i128,
    pub slope_bps: i128,
    pub jump_slope_bps: i128,
    pub rate_floor_bps: i128,
    pub rate_ceiling_bps: i128,
    pub spread_bps: i128,
    pub last_update: u64,
}

/// A partial update of the rate-model parameters.
#[derive(Clone, Debug, PartialEq, Eq, Structural)]
pub struct InterestRateConfigUpdate {
    pub base_rate_bps: Option<i128>,
    pub kink_utilization_bps: Option<i128>,
    pub slope_bps: Option<i128>,
    pub jump_slope_bps: Option<i128>,
    pub rate_floor_bps: Option<i128>,
    pub rate_ceiling_bps: Option<i128>,
    pub spread_bps: Option<i128>,
}

/// The default parameters, stamped at `now`.
pub open spec fn default_config_spec(now: u64) -> InterestRateConfig {
    InterestRateConfig {
        base_rate_bps: 100,
        kink_utilization_bps: 8000,
        slope_bps: 2000,
        jump_slope_bps: 10_000,
        rate_floor_bps: 0,
        rate_ceiling_bps: 10_000,
        spread_bps: 200,
        last_update: now,
    }
}

/// Default parameters: 1% base, kink at 80%, 20% slope, 100% jump slope,
/// rates clamped to [0%, 100%], 2% supply spread.
pub fn default_config(now: u64) -> (r: InterestRateConfig)
    ensures
        r == default_config_spec(now),
{
    InterestRateConfig {
        base_rate_bps: 100,
        kink_utilization_bps: 8000,
        slope_bps: 2000,
        jump_slope_bps: 10_000,
        rate_floor_bps: 0,
        rate_ceiling_bps: 10_000,
        spread_bps: 200,
        last_update: now,
    }
}

/// The configuration in effect: the stored one, or the defaults.
pub fn get_config(stored: Option<InterestRateConfig>, now: u64) -> (r: InterestRateConfig)
    ensures
        r == (match stored { Some(c) => c, None => default_config_spec(now) }),
{
    match stored {
        Some(c) => c,
        None => default_config(now),
    }
}

/// The configuration to persist at initialisation: nothing if one is stored.
pub fn set_default_if_missing(stored: Option<InterestRateConfig>, now: u64) -> (r: Option<InterestRateConfig>)
    ensures
        r == (match stored { Some(_) => None, None => Some(default_config_spec(now)) }),
{
    match stored {
        Some(_) => None,
        None => Some(default_config(now)),
    }
}

/// Utilization in bps: `debt * 10 000 / ceiling`, clamped to [0, 10 000].
pub open spec fn utilization_spec(debt_ceiling: int, total_debt: int) -> Result<i128, InterestRateError> {
    if debt_ceiling <= 0 || total_debt <= 0 {
        Ok(0)
    } else if !fits_i128(total_debt * 10_000) {
        Err(InterestRateError::Overflow)
    } else {
        let u = tdiv(total_debt * 10_000, debt_ceiling);
        Ok(if u > 10_000 { 10_000 } else { u as i128 })
    }
}

/// Pool utilization in basis points.
pub fn utilization_bps(debt_ceiling: i128, total_debt: i128) -> (r: Result<i128, InterestRateError>)
    ensures
        r == utilization_spec(debt_ceiling as int, total_debt as int),
        r is Ok ==> 0 <= r.unwrap() <= 10_000,
{
    if debt_ceiling <= 0 {
        return Ok(0);
    }
    if total_debt <= 0 {
        return Ok(0);
    }
    let p = match total_debt.checked_mul(BPS_SCALE) {
        None => return Err(InterestRateError::Overflow),
        Some(p) => p,
    };
    let util = p / debt_ceiling;
    if util > BPS_SCALE { Ok(BPS_SCALE) } else { Ok(util) }
}

/// Clamps a rate into [floor, ceiling] (floor first, then ceiling).
pub open spec fn clamp_rate(rate: int, floor: int, ceiling: int) -> int {
    let r1 = if rate < floor { floor } else { rate };
    if r1 > ceiling { ceiling } else { r1 }
}

/// The unclamped kinked rate at a utilization.
pub open spec fn kinked_rate(cfg: InterestRateConfig, util: int) -> Result<i128, InterestRateError> {
    if util <= cfg.kink_utilization_bps {
        if cfg.kink_utilization_bps > 0 {
            if !fits_i128(util * cfg.slope_bps) {
                Err(InterestRateError::Overflow)
            } else {
                let inc = tdiv(util * cfg.slope_bps, cfg.kink_utilization_bps as int);
                if fits_i128(cfg.base_rate_bps + inc) { Ok((cfg.base_rate_bps + inc) as i128) } else { Err(InterestRateError::Overflow) }
            }
        } else {
            Ok(cfg.base_rate_bps)
        }
    } else {
        let at_kink = cfg.base_rate_bps + cfg.slope_bps;
        let above = util - cfg.kink_utilization_bps;
        let max_above = 10_000 - cfg.kink_utilization_bps;
        if !fits_i128(at_kink) || !fits_i128(above) || !fits_i128(max_above) {
            Err(InterestRateError::Overflow)
        } else if max_above > 0 {
            if !fits_i128(above * cfg.jump_slope_bps) {
                Err(InterestRateError::Overflow)
            } else {
                let addl = tdiv(above * cfg.jump_slope_bps, max_above);
                if fits_i128(at_kink + addl) { Ok((at_kink + addl) as i128) } else { Err(InterestRateError::Overflow) }
            }
        } else {
            Ok(at_kink as i128)
        }
    }
}

/// The borrow rate for given pool figures.
pub open spec fn borrow_rate_spec(cfg: InterestRateConfig, debt_ceiling: int, total_debt: int) -> Result<i128, InterestRateError> {
    match utilization_spec(debt_ceiling, total_debt) {
        Err(e) => Err(e),
        Ok(u) => match kinked_rate(cfg, u as int) {
            Err(e) => Err(e),
            Ok(rate) => Ok(clamp_rate(rate as int, cfg.rate_floor_bps as int, cfg.rate_ceiling_bps as int) as i128),
        },
    }
}

fn rate_at_utilization(cfg: &InterestRateConfig, util: i128) -> (r: Result<i128, InterestRateError>)
    requires
        0 <= util <= 10_000,
    ensures
        r == kinked_rate(*cfg, util as int),
{
    if util <= cfg.kink_utilization_bps {
        if cfg.kink_utilization_bps > 0 {
            let p = match util.checked_mul(cfg.slope_bps) {
                None => return Err(InterestRateError::Overflow),
                Some(p) => p,
            };
            let inc = match p.checked_div(cfg.kink_utilization_bps) {
                None => return Err(InterestRateError::DivisionByZero),
                Some(q) => q,
            };
            match cfg.base_rate_bps.checked_add(inc) {
                None => Err(InterestRateError::Overflow),
                Some(r) => Ok(r),
            }
        } else {
            Ok(cfg.base_rate_bps)
        }
    } else {
        let at_kink = match cfg.base_rate_bps.checked_add(cfg.slope_bps) {
            None => return Err(InterestRateError::Overflow),
            Some(v) => v,
        };
        let above = match util.checked_sub(cfg.kink_utilization_bps) {
            None => return Err(InterestRateError::Overflow),
            Some(v) => v,
        };
        let max_above = match BPS_SCALE.checked_sub(cfg.kink_utilization_bps) {
            None => return Err(InterestRateError::Overflow),
            Some(v) => v,
        };
        if max_above > 0 {
            let p = match above.checked_mul(cfg.jump_slope_bps) {
                None => return Err(InterestRateError::Overflow),
                Some(p) => p,
            };
            let addl = match p.checked_div(max_above) {
                None => return Err(InterestRateError::DivisionByZero),
                Some(q) => q,
            };
            match at_kink.checked_add(addl) {
                None => Err(InterestRateError::Overflow),
                Some(r) => Ok(r),
            }
        } else {
            Ok(at_kink)
        }
    }
}

/// Borrow rate in bps: base plus a slope up to the kink, then a jump slope
/// beyond it, clamped into [floor, ceiling].
pub fn borrow_rate_bps(cfg: &InterestRateConfig, debt_ceiling: i128, total_debt: i128) -> (r: Result<i128, InterestRateError>)
    ensures
        r == borrow_rate_spec(*cfg, debt_ceiling as int, total_debt as int),
{
    let util = utilization_bps(debt_ceiling, total_debt)?;
    let rate = rate_at_utilization(cfg, util)?;
    let r1 = if rate < cfg.rate_floor_bps { cfg.rate_floor_bps } else { rate };
    let r2 = if r1 > cfg.rate_ceiling_bps { cfg.rate_ceiling_bps } else { r1 };
    Ok(r2)
}

/// Supply rate: the borrow rate less the spread, never below the floor.
pub open spec fn supply_rate_spec(cfg: InterestRateConfig, debt_ceiling: int, total_debt: int) -> Result<i128, InterestRateError> {
    match borrow_rate_spec(cfg, debt_ceiling, total_debt) {
        Err(e) => Err(e),
        Ok(b) => if !fits_i128(b - cfg.spread_bps) {
            Err(InterestRateError::Overflow)
        } else if b - cfg.spread_bps < cfg.rate_floor_bps {
            Ok(cfg.rate_floor_bps)
        } else {
            Ok((b - cfg.spread_bps) as i128)
        },
    }
}

/// Supply rate in basis points.
pub fn supply_rate_bps(cfg: &InterestRateConfig, debt_ceiling: i128, total_debt: i128) -> (r: Result<i128, InterestRateError>)
    ensures
        r == supply_rate_spec(*cfg, debt_ceiling as int, total_debt as int),
{
    let borrow = borrow_rate_bps(cfg, debt_ceiling, total_debt)?;
    let supply = match borrow.checked_sub(cfg.spread_bps) {
        None => return Err(InterestRateError::Overflow),
        Some(s) => s,
    };
    if supply < cfg.rate_floor_bps { Ok(cfg.rate_floor_bps) } else { Ok(supply) }
}

/// Is `v` a basis-point value in [0, 10 000]?
pub open spec fn bps_in_range(v: i128) -> bool {
    0 <= v <= 10_000
}

/// The outcome of an update: every supplied field validated in order, the
/// floor checked against the ceiling before the spread, then stamped at `now`.
pub open spec fn update_spec(caller: AccountId, admin: Option<AccountId>, prev: InterestRateConfig, u: InterestRateConfigUpdate, now: u64)
    -> Result<(InterestRateConfig, InterestRateConfig), InterestRateError>
{
    if admin is None || caller != admin.unwrap() {
        Err(InterestRateError::Unauthorized)
    } else if (u.base_rate_bps is Some && !bps_in_range(u.base_rate_bps.unwrap()))
        || (u.kink_utilization_bps is Some && !(0 < u.kink_utilization_bps.unwrap() < 10_000))
        || (u.slope_bps is Some && u.slope_bps.unwrap() < 0)
        || (u.jump_slope_bps is Some && u.jump_slope_bps.unwrap() < 0)
        || (u.rate_floor_bps is Some && !bps_in_range(u.rate_floor_bps.unwrap()))
        || (u.rate_ceiling_bps is Some && !bps_in_range(u.rate_ceiling_bps.unwrap())) {
        Err(InterestRateError::InvalidParameter)
    } else {
        let floor = match u.rate_floor_bps { Some(v) => v, None => prev.rate_floor_bps };
        let ceiling = match u.rate_ceiling_bps { Some(v) => v, None => prev.rate_ceiling_bps };
        if floor > ceiling {
            Err(InterestRateError::InvalidParameter)
        } else if u.spread_bps is Some && !bps_in_range(u.spread_bps.unwrap()) {
            Err(InterestRateError::InvalidParameter)
        } else {
            Ok((prev, InterestRateConfig {
                base_rate_bps: match u.base_rate_bps { Some(v) => v, None => prev.base_rate_bps },
                kink_utilization_bps: match u.kink_utilization_bps { Some(v) => v, None => prev.kink_utilization_bps },
                slope_bps: match u.slope_bps { Some(v) => v, None => prev.slope_bps },
                jump_slope_bps: match u.jump_slope_bps { Some(v) => v, None => prev.jump_slope_bps },
                rate_floor_bps: floor,
                rate_ceiling_bps: ceiling,
                spread_bps: match u.spread_bps { Some(v) => v, None => prev.spread_bps },
                last_update: now,
            }))
        }
    }
}

/// Applies an admin's partial update to the parameters; returns the previous
/// and the new configuration (the new one is what gets persisted).
pub fn update_config(
    caller: AccountId,
    admin: Option<AccountId>,
    prev: InterestRateConfig,
    update: InterestRateConfigUpdate,
    now: u64,
) -> (r: Result<(InterestRateConfig, InterestRateConfig), InterestRateError>)
    ensures
        r == update_spec(caller, admin, prev, update, now),
{
    match admin {
        None => return Err(InterestRateError::Unauthorized),
        Some(a) => if caller != a { return Err(InterestRateError::Unauthorized); },
    }
    let mut base = prev.base_rate_bps;
    let mut kink = prev.kink_utilization_bps;
    let mut slope = prev.slope_bps;
    let mut jump = prev.jump_slope_bps;
    let mut floor = prev.rate_floor_bps;
    let mut ceiling = prev.rate_ceiling_bps;
    let mut spread = prev.spread_bps;
    if let Some(v) = update.base_rate_bps {
        if v < 0 || v > BPS_SCALE { return Err(InterestRateError::InvalidParameter); }
        base = v;
    }
    if let Some(v) = update.kink_utilization_bps {
        if v <= 0 || v >= BPS_SCALE { return Err(InterestRateError::InvalidParameter); }
        kink = v;
    }
    if let Some(v) = update.slope_bps {
        if v < 0 { return Err(InterestRateError::InvalidParameter); }
        slope = v;
    }
    if let Some(v) = update.jump_slope_bps {
        if v < 0 { return Err(InterestRateError::InvalidParameter); }
        jump = v;
    }
    if let Some(v) = update.rate_floor_bps {
        if v < 0 || v > BPS_SCALE { return Err(InterestRateError::InvalidParameter); }
        floor = v;
    }
    if let Some(v) = update.rate_ceiling_bps {
        if v < 0 || v > BPS_SCALE { return Err(InterestRateError::InvalidParameter); }
        ceiling = v;
    }
    if floor > ceiling {
        return Err(InterestRateError::InvalidParameter);
    }
    if let Some(v) = update.spread_bps {
        if v < 0 || v > BPS_SCALE { return Err(InterestRateError::InvalidParameter); }
        spread = v;
    }
    let next = InterestRateConfig {
        base_rate_bps: base,
        kink_utilization_bps: kink,
        slope_bps: slope,
        jump_slope_bps: jump,
        rate_floor_bps: floor,
        rate_ceiling_bps: ceiling,
        spread_bps: spread,
        last_update: now,
    };
    Ok((prev, next))
}

/// When the floor does not exceed the ceiling, the borrow rate always lies
/// within [floor, ceiling].
pub proof fn lemma_borrow_rate_clamped(cfg: InterestRateConfig, debt_ceiling: int, total_debt: int)
    requires
        cfg.rate_floor_bps <= cfg.rate_ceiling_bps,
        borrow_rate_spec(cfg, debt_ceiling, total_debt) is Ok,
    ensures
        cfg.rate_floor_bps <= borrow_rate_spec(cfg, debt_ceiling, total_debt).unwrap() <= cfg.rate_ceiling_bps,
{
}

/// An accepted update always leaves the floor at or below the ceiling.
pub proof fn lemma_update_keeps_floor_below_ceiling(caller: AccountId, admin: Option<AccountId>, prev: InterestRateConfig, u: InterestRateConfigUpdate, now: u64)
    requires
        update_spec(caller, admin, prev, u, now) is Ok,
    ensures
        update_spec(caller, admin, prev, u, now).unwrap().1.rate_floor_bps <= update_spec(caller, admin, prev, u, now).unwrap().1.rate_ceiling_bps,
{
}

/// The borrow rate never decreases as utilization rises (for a kink strictly
/// inside (0, 100%) and non-negative slopes), whenever both rates are defined.
pub proof fn lemma_rate_monotone_in_utilization(cfg: InterestRateConfig, a: int, b: int)
    requires
        0 <= a <= b <= 10_000,
        0 < cfg.kink_utilization_bps < 10_000,
        cfg.slope_bps >= 0,
        cfg.jump_slope_bps >= 0,
        kinked_rate(cfg, a) is Ok,
        kinked_rate(cfg, b) is Ok,
    ensures
        kinked_rate(cfg, a)->Ok_0 <= kinked_rate(cfg, b)->Ok_0,
        clamp_rate(kinked_rate(cfg, a)->Ok_0 as int, cfg.rate_floor_bps as int, cfg.rate_ceiling_bps as int)
            <= clamp_rate(kinked_rate(cfg, b)->Ok_0 as int, cfg.rate_floor_bps as int, cfg.rate_ceiling_bps as int),
{
    let k = cfg.kink_utilization_bps as int;
    let s = cfg.slope_bps as int;
    let j = cfg.jump_slope_bps as int;
    if b <= k {
        assert(a * s <= b * s) by (nonlinear_arith) requires 0 <= a <= b, s >= 0;
        assert(0 <= a * s) by (nonlinear_arith) requires 0 <= a, s >= 0;
        assert((a * s) / k <= (b * s) / k) by (nonlinear_arith) requires 0 <= a * s <= b * s, k > 0;
    } else if a <= k {
        assert(0 <= a * s <= k * s) by (nonlinear_arith) requires 0 <= a <= k, s >= 0;
        assert((a * s) / k <= (k * s) / k) by (nonlinear_arith) requires 0 <= a * s <= k * s, k > 0;
        assert((k * s) / k == s) by (nonlinear_arith) requires k > 0;
        assert(0 <= (b - k) * j) by (nonlinear_arith) requires b - k >= 0, j >= 0;
        assert(0 <= ((b - k) * j) / (10_000 - k)) by (nonlinear_arith) requires 0 <= (b - k) * j, 10_000 - k > 0;
    } else {
        assert(0 <= (a - k) * j <= (b - k) * j) by (nonlinear_arith) requires 0 <= a - k <= b - k, j >= 0;
        assert(((a - k) * j) / (10_000 - k) <= ((b - k) * j) / (10_000 - k)) by (nonlinear_arith)
            requires 0 <= (a - k) * j <= (b - k) * j, 10_000 - k > 0;
    }
}

/// With a non-negative spread and the floor at or below the ceiling, the
/// supply rate never exceeds the borrow rate.
pub proof fn lemma_supply_at_most_borrow(cfg: InterestRateConfig, debt_ceiling: int, total_debt: int)
    requires
        cfg.rate_floor_bps <= cfg.rate_ceiling_bps,
        cfg.spread_bps >= 0,
        supply_rate_spec(cfg, debt_ceiling, total_debt) is Ok,
    ensures
        borrow_rate_spec(cfg, debt_ceiling, total_debt) is Ok,
        supply_rate_spec(cfg, debt_ceiling, total_debt)->Ok_0 <= borrow_rate_spec(cfg, debt_ceiling, total_debt)->Ok_0,
{
    lemma_borrow_rate_clamped(cfg, debt_ceiling, total_debt);
}

/// With no debt the borrow rate is the base rate, when the base lies within [floor, ceiling].
pub proof fn lemma_zero_debt_is_base_rate(cfg: InterestRateConfig, debt_ceiling: int)
    requires
        cfg.rate_floor_bps <= cfg.base_rate_bps <= cfg.rate_ceiling_bps,
        cfg.kink_utilization_bps >= 0,
    ensures
        borrow_rate_spec(cfg, debt_ceiling, 0) == Ok::<i128, InterestRateError>(cfg.base_rate_bps),
{
}

} // verus!
