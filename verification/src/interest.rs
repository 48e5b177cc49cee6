//! Incremental interest accrual through a cached cumulative index.
//!
//! `index_n = index_{n-1} + index_{n-1} * rate * dt / (BPS * SECONDS_PER_YEAR)`;
//! each segment is linear, and operations landing in the same ledger are
//! charged once (the cache is left untouched).
use vstd::prelude::*;
use crate::math::{tdiv, fits_i128};

verus! {

/// Fixed-point scale of the cumulative index (`1e9` == 1.0).
pub const INDEX_SCALE: i128 = 1_000_000_000;
/// Basis-point scale of rates.
pub const BPS_SCALE: i128 = 10_000;
/// Seconds in a (365-day) year.
pub const SECONDS_PER_YEAR: i128 = 31_536_000;

/// Failures of the interest cache.
#[derive(Copy, Clone, Debug, PartialEq, Eq, Structural)]
pub enum InterestCacheError {
    /// Arithmetic overflow while advancing the index.
    Overflow,
    /// A position index was newer than the global index.
    StaleSnapshot,
}

/// Cached interest state, one record per pool.
#[derive(Clone, Debug, PartialEq, Eq, Structural)]
pub struct InterestCache {
    /// Ledger sequence of the last accrual.
    pub last_update_block: u32,
    /// Ledger timestamp of the last accrual.
    pub last_update_time: u64,
    /// Compounding index scaled by `INDEX_SCALE`.
    pub cumulative_index: i128,
    /// Borrow rate (bps) applied to the open segment.
    pub last_cached_rate: i128,
}

impl InterestCache {
    /// A fresh cache anchored at the given ledger, index == 1.0.
    pub fn fresh(block: u32, now: u64, rate_bps: i128) -> (r: Self)
        ensures
            r == (InterestCache { last_update_block: block, last_update_time: now, cumulative_index: INDEX_SCALE, last_cached_rate: rate_bps }),
    {
        InterestCache { last_update_block: block, last_update_time: now, cumulative_index: INDEX_SCALE, last_cached_rate: rate_bps }
    }
}

/// One linear accrual step of the index.
pub open spec fn advance_index_spec(index: int, rate_bps: int, dt: int) -> Result<i128, InterestCacheError> {
    if dt == 0 || rate_bps == 0 || index == 0 {
        Ok(index as i128)
    } else if !fits_i128(index * rate_bps) || !fits_i128(index * rate_bps * dt) {
        Err(InterestCacheError::Overflow)
    } else {
        let delta = tdiv(index * rate_bps * dt, 315_360_000_000);
        if fits_i128(index + delta) { Ok((index + delta) as i128) } else { Err(InterestCacheError::Overflow) }
    }
}

/// Advances the index by `index * rate_bps * dt / (10 000 * SECONDS_PER_YEAR)`.
pub fn advance_index(index: i128, rate_bps: i128, dt_secs: u64) -> (r: Result<i128, InterestCacheError>)
    ensures
        r == advance_index_spec(index as int, rate_bps as int, dt_secs as int),
{
    if dt_secs == 0 || rate_bps == 0 || index == 0 {
        return Ok(index);
    }
    let dt = dt_secs as i128;
    let numerator = match index.checked_mul(rate_bps) {
        None => return Err(InterestCacheError::Overflow),
        Some(v) => match v.checked_mul(dt) {
            None => return Err(InterestCacheError::Overflow),
            Some(w) => w,
        },
    };
    let denominator = BPS_SCALE * SECONDS_PER_YEAR;
    let delta = match numerator.checked_div(denominator) {
        None => return Err(InterestCacheError::Overflow),
        Some(d) => d,
    };
    match index.checked_add(delta) {
        None => Err(InterestCacheError::Overflow),
        Some(v) => Ok(v),
    }
}

/// Interest owed on `principal` since its entry index.
pub open spec fn interest_for_spec(principal: int, entry_index: int, index: int) -> Result<i128, InterestCacheError> {
    if principal <= 0 || entry_index <= 0 {
        Ok(0)
    } else if index < entry_index {
        Err(InterestCacheError::StaleSnapshot)
    } else if !fits_i128(index - entry_index) || !fits_i128(principal * (index - entry_index)) {
        Err(InterestCacheError::Overflow)
    } else {
        Ok(tdiv(principal * (index - entry_index), entry_index) as i128)
    }
}

/// Interest owed: `principal * (index - entry_index) / entry_index`.
pub fn interest_for(principal: i128, entry_index: i128, index: i128) -> (r: Result<i128, InterestCacheError>)
    ensures
        r == interest_for_spec(principal as int, entry_index as int, index as int),
{
    if principal <= 0 || entry_index <= 0 {
        return Ok(0);
    }
    if index < entry_index {
        return Err(InterestCacheError::StaleSnapshot);
    }
    let growth = match index.checked_sub(entry_index) {
        None => return Err(InterestCacheError::Overflow),
        Some(g) => g,
    };
    let p = match principal.checked_mul(growth) {
        None => return Err(InterestCacheError::Overflow),
        Some(p) => p,
    };
    proof {
        assert(p >= 0) by (nonlinear_arith) requires p == principal * growth, principal > 0, growth >= 0;
    }
    Ok(p / entry_index)
}

/// The cache as read: the stored record, or a fresh one anchored now.
pub fn get_cache(stored: Option<InterestCache>, block: u32, now: u64, current_rate: i128) -> (r: InterestCache)
    ensures
        r == (match stored {
            Some(c) => c,
            None => InterestCache { last_update_block: block, last_update_time: now, cumulative_index: INDEX_SCALE, last_cached_rate: current_rate },
        }),
{
    match stored {
        Some(c) => c,
        None => InterestCache::fresh(block, now, current_rate),
    }
}

/// The cache after accruing to ledger (`block`, `now`).
pub open spec fn accrue_spec(cache: InterestCache, block: u32, now: u64, current_rate: i128) -> Result<InterestCache, InterestCacheError> {
    if block == cache.last_update_block || now <= cache.last_update_time {
        Ok(cache)
    } else {
        match advance_index_spec(cache.cumulative_index as int, cache.last_cached_rate as int, now - cache.last_update_time) {
            Err(e) => Err(e),
            Ok(idx) => Ok(InterestCache { last_update_block: block, last_update_time: now, cumulative_index: idx, last_cached_rate: current_rate }),
        }
    }
}

/// Accrues the open segment up to the current ledger. Within one ledger, or if
/// time appears to run backwards, the cache is returned unchanged.
pub fn accrue(cache: InterestCache, block: u32, now: u64, current_rate: i128) -> (r: Result<InterestCache, InterestCacheError>)
    ensures
        r == accrue_spec(cache, block, now, current_rate),
{
    if block == cache.last_update_block || now <= cache.last_update_time {
        return Ok(cache);
    }
    let dt = now - cache.last_update_time;
    let idx = advance_index(cache.cumulative_index, cache.last_cached_rate, dt)?;
    Ok(InterestCache { last_update_block: block, last_update_time: now, cumulative_index: idx, last_cached_rate: current_rate })
}

/// The index at `now` without touching the cache (a failed step reads as the cached index).
pub fn current_index(cache: &InterestCache, now: u64) -> (r: i128)
    ensures
        now <= cache.last_update_time ==> r == cache.cumulative_index,
        now > cache.last_update_time ==> r == (match advance_index_spec(cache.cumulative_index as int, cache.last_cached_rate as int, now - cache.last_update_time) {
            Ok(v) => v,
            Err(_) => cache.cumulative_index,
        }),
{
    if now <= cache.last_update_time {
        return cache.cumulative_index;
    }
    let dt = now - cache.last_update_time;
    match advance_index(cache.cumulative_index, cache.last_cached_rate, dt) {
        Ok(v) => v,
        Err(_) => cache.cumulative_index,
    }
}

/// Closes the open segment at the old rate, then re-anchors the cache to the new rate.
pub fn invalidate(cache: InterestCache, block: u32, now: u64, current_rate: i128) -> (r: Result<InterestCache, InterestCacheError>)
    ensures
        r == (match accrue_spec(cache, block, now, current_rate) {
            Err(e) => Err(e),
            Ok(c) => Ok(InterestCache { last_cached_rate: current_rate, last_update_block: block, ..c }),
        }),
{
    let mut c = accrue(cache, block, now, current_rate)?;
    c.last_cached_rate = current_rate;
    c.last_update_block = block;
    Ok(c)
}

/// Accruing twice in the same ledger charges interest only once.
pub proof fn lemma_accrue_idempotent_within_block(cache: InterestCache, block: u32, now: u64, rate: i128)
    requires
        accrue_spec(cache, block, now, rate) is Ok,
    ensures
        accrue_spec(accrue_spec(cache, block, now, rate).unwrap(), block, now, rate) == accrue_spec(cache, block, now, rate),
{
}

/// With a non-negative rate the index never decreases.
pub proof fn lemma_advance_index_monotone(index: int, rate_bps: int, dt: int)
    requires
        0 <= index <= i128::MAX,
        rate_bps >= 0,
        dt >= 0,
        advance_index_spec(index, rate_bps, dt) is Ok,
    ensures
        advance_index_spec(index, rate_bps, dt).unwrap() >= index,
{
    if !(dt == 0 || rate_bps == 0 || index == 0) {
        assert(index * rate_bps * dt >= 0) by (nonlinear_arith) requires index >= 0, rate_bps >= 0, dt >= 0;
    }
}

/// A position whose entry index equals the current index owes nothing.
pub proof fn lemma_no_interest_without_growth(principal: int, index: int)
    requires
        fits_i128(principal),
        fits_i128(index),
    ensures
        interest_for_spec(principal, index, index) == Ok::<i128, InterestCacheError>(0),
{
    if principal > 0 && index > 0 {
        assert(principal * (index - index) == 0);
    }
}

} // verus!
