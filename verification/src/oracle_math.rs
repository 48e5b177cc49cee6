//! Price arithmetic of the oracle: deviations in basis points, the median of
//! source prices, outlier filtering around the median, the time-weighted
//! average price over the observation history, and short-window volatility.
use vstd::prelude::*;
use vstd::relations::sorted_by;
use crate::math::{tdiv, fits_i128};

verus! {

broadcast use vstd::seq_lib::group_to_multiset_ensures;

/// Errors of oracle operations.
#[derive(Copy, Clone, Debug, PartialEq, Eq, Structural)]
pub enum OracleError {
    /// Zero, negative or out-of-bounds price.
    InvalidPrice,
    /// The price is older than the staleness threshold.
    StalePrice,
    /// The deviation between updates exceeds the maximum.
    PriceDeviationExceeded,
    /// An oracle address is invalid.
    InvalidOracle,
    /// Oracle updates are paused.
    OraclePaused,
    /// Arithmetic overflow.
    Overflow,
    /// The caller may not perform this operation.
    Unauthorized,
    /// The asset is not supported.
    AssetNotSupported,
    /// No usable fallback or source price.
    FallbackNotConfigured,
    /// The circuit breaker of the asset is open.
    CircuitBreakerOpen,
    /// Too few sources remain after outlier filtering.
    NotEnoughSources,
}

/// A stored price observation.
#[derive(Clone, Copy, Debug, PartialEq, Eq, Structural)]
pub struct PriceObservation {
    pub price: i128,
    pub timestamp: u64,
}

/// `|a - b| * 10 000 / base` for positive `a`, `b`, `base`, or `Overflow`.
pub open spec fn dev_bps(a: int, b: int, base: int) -> Result<i128, OracleError> {
    let diff = if a > b { a - b } else { b - a };
    if !fits_i128(diff * 10_000) { Err(OracleError::Overflow) } else { Ok(tdiv(diff * 10_000, base) as i128) }
}

/// Deviation of `observed` from `reference` in bps (both must be positive).
pub open spec fn price_deviation_spec(reference: int, observed: int) -> Result<i128, OracleError> {
    if reference <= 0 || observed <= 0 {
        Err(OracleError::InvalidPrice)
    } else {
        dev_bps(observed, reference, reference)
    }
}

/// `|a - b| * 10 000 / base` for positive `a`, `b`, `base`.
pub fn deviation_bps(a: i128, b: i128, base: i128) -> (r: Result<i128, OracleError>)
    requires
        a > 0,
        b > 0,
        base > 0,
    ensures
        r == dev_bps(a as int, b as int, base as int),
        r is Ok ==> r.unwrap() >= 0,
{
    let diff = if a > b { a - b } else { b - a };
    let p = match diff.checked_mul(10_000) {
        None => return Err(OracleError::Overflow),
        Some(p) => p,
    };
    Ok(p / base)
}

/// Deviation of an observed price from a reference price, in basis points.
pub fn price_deviation_bps(reference_price: i128, observed_price: i128) -> (r: Result<i128, OracleError>)
    ensures
        r == price_deviation_spec(reference_price as int, observed_price as int),
        r is Ok ==> r.unwrap() >= 0,
{
    if reference_price <= 0 || observed_price <= 0 {
        return Err(OracleError::InvalidPrice);
    }
    deviation_bps(observed_price, reference_price, reference_price)
}

/// The median: the element at index `n / 2` of the ascending ordering.
pub open spec fn median_spec(values: Seq<i128>) -> Result<i128, OracleError> {
    if values.len() == 0 {
        Err(OracleError::NotEnoughSources)
    } else {
        Ok(values.sort_by(|x: i128, y: i128| x <= y)[(values.len() / 2) as int])
    }
}

proof fn lemma_swap_multiset(s: Seq<i128>, j: int)
    requires
        0 < j < s.len(),
    ensures
        s.update(j - 1, s[j]).update(j, s[j - 1]).to_multiset() =~= s.to_multiset(),
{
    broadcast use vstd::seq_lib::to_multiset_update;
    broadcast use vstd::multiset::group_multiset_axioms;
    let t = s.update(j - 1, s[j]);
    assert(t.to_multiset() == s.to_multiset().insert(s[j]).remove(s[j - 1]));
    assert(t[j] == s[j]);
    assert(t.update(j, s[j - 1]).to_multiset() == t.to_multiset().insert(s[j - 1]).remove(s[j]));
    assert(t.update(j, s[j - 1]).to_multiset() =~= s.to_multiset());
}

/// Sorts the values ascending (insertion by adjacent swaps) and picks index `n / 2`.
pub fn median_i128(values: Vec<i128>) -> (r: Result<i128, OracleError>)
    ensures
        r == median_spec(values@),
{
    let n = values.len();
    if n == 0 {
        return Err(OracleError::NotEnoughSources);
    }
    let ghost orig = values@;
    let mut v = values;
    let mut i: usize = 1;
    while i < n
        invariant
            1 <= i <= n,
            n == v@.len(),
            v@.to_multiset() == orig.to_multiset(),
            forall|a: int, b: int| 0 <= a < b < i ==> v@[a] <= v@[b],
        decreases n - i,
    {
        let mut j: usize = i;
        while j > 0 && v[j - 1] > v[j]
            invariant
                1 <= i < n,
                j <= i,
                n == v@.len(),
                v@.to_multiset() == orig.to_multiset(),
                forall|a: int, b: int| 0 <= a < b <= i && a != j && b != j ==> v@[a] <= v@[b],
                forall|b: int| j < b <= i ==> v@[j as int] <= v@[b],
            decreases j,
        {
            let x = v[j - 1];
            let y = v[j];
            proof {
                lemma_swap_multiset(v@, j as int);
            }
            v.set(j - 1, y);
            v.set(j, x);
            j = j - 1;
        }
        i = i + 1;
    }
    proof {
        let leq = |x: i128, y: i128| x <= y;
        assert(vstd::relations::total_ordering(leq));
        assert(sorted_by(v@, leq));
        orig.lemma_sort_by_ensures(leq);
        vstd::seq_lib::lemma_sorted_unique(v@, orig.sort_by(leq), leq);
    }
    Ok(v[n / 2])
}

/// Prices kept by the outlier filter, scanning `prices[..n]`: non-positive
/// prices are dropped and prices deviating from the median by more than
/// `band_bps` are removed; arithmetic overflow fails the whole filter.
pub open spec fn filter_spec(prices: Seq<i128>, n: int, median: i128, band_bps: i128) -> Result<Seq<i128>, OracleError>
    decreases n,
{
    if n <= 0 {
        Ok(Seq::empty())
    } else {
        match filter_spec(prices, n - 1, median, band_bps) {
            Err(e) => Err(e),
            Ok(kept) => {
                let p = prices[n - 1];
                if p <= 0 {
                    Ok(kept)
                } else {
                    match dev_bps(p as int, median as int, median as int) {
                        Err(e) => Err(e),
                        Ok(d) => if d <= band_bps { Ok(kept.push(p)) } else { Ok(kept) },
                    }
                }
            },
        }
    }
}

proof fn lemma_filter_err_persists(prices: Seq<i128>, i: int, n: int, median: i128, band: i128)
    requires
        0 <= i <= n,
        filter_spec(prices, i, median, band) is Err,
    ensures
        filter_spec(prices, n, median, band) == filter_spec(prices, i, median, band),
    decreases n - i,
{
    if i < n {
        lemma_filter_err_persists(prices, i, n - 1, median, band);
    }
}

/// The outcome of outlier filtering around `median` with the configured band.
pub open spec fn filter_outliers_spec(prices: Seq<i128>, median: i128, band_bps: i128) -> Result<Seq<i128>, OracleError> {
    if median <= 0 {
        Err(OracleError::InvalidPrice)
    } else if band_bps <= 0 {
        Ok(prices)
    } else {
        filter_spec(prices, prices.len() as int, median, band_bps)
    }
}

/// Removes prices further than `outlier_deviation_bps` from the median.
pub fn filter_outliers(outlier_deviation_bps: i128, median: i128, prices: Vec<i128>) -> (r: Result<Vec<i128>, OracleError>)
    ensures
        match (r, filter_outliers_spec(prices@, median, outlier_deviation_bps)) {
            (Ok(a), Ok(b)) => a@ == b,
            (Err(a), Err(b)) => a == b,
            _ => false,
        },
{
    if median <= 0 {
        return Err(OracleError::InvalidPrice);
    }
    if outlier_deviation_bps <= 0 {
        return Ok(prices);
    }
    let mut kept: Vec<i128> = Vec::new();
    let n = prices.len();
    let mut i: usize = 0;
    while i < n
        invariant
            i <= n,
            n == prices@.len(),
            median > 0,
            outlier_deviation_bps > 0,
            filter_spec(prices@, i as int, median, outlier_deviation_bps) == Ok::<Seq<i128>, OracleError>(kept@),
        decreases n - i,
    {
        let p = prices[i];
        if p > 0 {
            match deviation_bps(p, median, median) {
                Err(e) => {
                    assert(filter_spec(prices@, i + 1, median, outlier_deviation_bps) == Err::<Seq<i128>, OracleError>(e));
                    proof { lemma_filter_err_persists(prices@, i + 1, n as int, median, outlier_deviation_bps); }
                    assert(filter_outliers_spec(prices@, median, outlier_deviation_bps) == Err::<Seq<i128>, OracleError>(e));
                    return Err(e);
                },
                Ok(d) => {
                    if d <= outlier_deviation_bps {
                        kept.push(p);
                    }
                },
            }
        }
        i = i + 1;
    }
    Ok(kept)
}

/// Running state of the TWAP scan: the current observation, the time its
/// segment starts, the accumulated `price * dt` and the covered seconds.
pub struct TwapAcc {
    pub prev: PriceObservation,
    pub prev_t: u64,
    pub weighted: i128,
    pub total: u64,
}

/// Saturating `u64` addition.
pub open spec fn sat_add_u64(a: u64, b: u64) -> u64 {
    if a + b > u64::MAX { u64::MAX } else { (a + b) as u64 }
}

/// The TWAP scan from index `idx`: observations at or before the window start
/// are skipped, the scan stops at the first observation after `now`, and each
/// later observation closes the previous segment (weighted by its price).
pub open spec fn twap_scan(h: Seq<PriceObservation>, idx: int, ws: u64, now: u64, prev: PriceObservation, prev_t: u64, weighted: int, total: u64)
    -> Result<(PriceObservation, u64, int, u64), OracleError>
    decreases h.len() - idx,
{
    if idx >= h.len() {
        Ok((prev, prev_t, weighted, total))
    } else {
        let cur = h[idx];
        if cur.timestamp <= ws {
            twap_scan(h, idx + 1, ws, now, prev, prev_t, weighted, total)
        } else if cur.timestamp > now {
            Ok((prev, prev_t, weighted, total))
        } else if cur.timestamp > prev_t {
            let dt = cur.timestamp - prev_t;
            if !fits_i128(prev.price * dt) || !fits_i128(weighted + prev.price * dt) {
                Err(OracleError::Overflow)
            } else {
                twap_scan(h, idx + 1, ws, now, cur, cur.timestamp, weighted + prev.price * dt, sat_add_u64(total, dt as u64))
            }
        } else {
            twap_scan(h, idx + 1, ws, now, cur, cur.timestamp, weighted, total)
        }
    }
}

/// Index of the observation the TWAP starts from: the one just before the first
/// observation inside the window (or the first one), and 0 when none is inside.
pub open spec fn twap_start(h: Seq<PriceObservation>, ws: u64, i: int) -> int
    decreases h.len() - i,
{
    if i >= h.len() {
        0
    } else if h[i].timestamp >= ws {
        if i == 0 { 0 } else { i - 1 }
    } else {
        twap_start(h, ws, i + 1)
    }
}

/// The time-weighted average price over `[now - window, now]`, the last known
/// price assumed to hold until `now`; the spot price when TWAP is disabled,
/// the history is empty, or no time is covered.
pub open spec fn twap_spec(window: u64, h: Seq<PriceObservation>, spot: i128, now: u64) -> Result<i128, OracleError> {
    if window == 0 || h.len() == 0 {
        Ok(spot)
    } else {
        let ws: u64 = if now >= window { (now - window) as u64 } else { 0 };
        let s = twap_start(h, ws, 0);
        let prev = h[s];
        let prev_t: u64 = if prev.timestamp < ws { ws } else { prev.timestamp };
        match twap_scan(h, s + 1, ws, now, prev, prev_t, 0, 0) {
            Err(e) => Err(e),
            Ok((p, pt, w, t)) => {
                let last_price: int = if p.timestamp == 0 { spot as int } else { p.price as int };
                let (w2, t2) = if now > pt { (w + last_price * (now - pt), sat_add_u64(t, (now - pt) as u64)) } else { (w, t) };
                if now > pt && (!fits_i128(last_price * (now - pt)) || !fits_i128(w2)) {
                    Err(OracleError::Overflow)
                } else if t2 == 0 {
                    Ok(spot)
                } else {
                    Ok(tdiv(w2, t2 as int) as i128)
                }
            },
        }
    }
}

fn sat_add(a: u64, b: u64) -> (r: u64)
    ensures
        r == sat_add_u64(a, b),
{
    match a.checked_add(b) {
        Some(v) => v,
        None => u64::MAX,
    }
}

proof fn lemma_twap_start_bound(h: Seq<PriceObservation>, ws: u64, i: int)
    requires
        0 <= i,
        h.len() > 0,
    ensures
        0 <= twap_start(h, ws, i) < h.len(),
    decreases h.len() - i,
{
    if i < h.len() && h[i].timestamp < ws {
        lemma_twap_start_bound(h, ws, i + 1);
    }
}

/// Time-weighted average price of the stored observations.
pub fn compute_twap(twap_window_seconds: u64, history: &Vec<PriceObservation>, spot_price: i128, now: u64) -> (r: Result<i128, OracleError>)
    ensures
        r == twap_spec(twap_window_seconds, history@, spot_price, now),
{
    if twap_window_seconds == 0 {
        return Ok(spot_price);
    }
    let n = history.len();
    if n == 0 {
        return Ok(spot_price);
    }
    let window_start: u64 = if now >= twap_window_seconds { now - twap_window_seconds } else { 0 };
    let ghost h = history@;
    let mut start_idx: usize = 0;
    let mut i: usize = 0;
    while i < n
        invariant_except_break
            start_idx == 0,
        invariant
            i <= n,
            n == h.len(),
            h == history@,
            twap_start(h, window_start, 0) == twap_start(h, window_start, i as int),
        ensures
            start_idx as int == twap_start(h, window_start, 0),
        decreases n - i,
    {
        if history[i].timestamp >= window_start {
            start_idx = if i == 0 { 0 } else { i - 1 };
            break;
        }
        i = i + 1;
    }
    assert(start_idx as int == twap_start(h, window_start, 0));
    proof { lemma_twap_start_bound(h, window_start, 0); }
    let ghost ws_spec: u64 = if now >= twap_window_seconds { (now - twap_window_seconds) as u64 } else { 0 };
    assert(ws_spec == window_start);
    let mut prev = history[start_idx];
    let mut prev_t: u64 = if prev.timestamp < window_start { window_start } else { prev.timestamp };
    let mut weighted: i128 = 0;
    let mut total: u64 = 0;
    let mut idx: usize = start_idx + 1;
    while idx < n
        invariant
            start_idx + 1 <= idx <= n,
            n == h.len(),
            twap_window_seconds != 0,
            start_idx as int == twap_start(h, window_start, 0),
            window_start == (if now >= twap_window_seconds { (now - twap_window_seconds) as u64 } else { 0 }),
            h == history@,
            twap_scan(h, start_idx + 1, window_start, now, h[start_idx as int],
                if h[start_idx as int].timestamp < window_start { window_start } else { h[start_idx as int].timestamp }, 0, 0)
                == twap_scan(h, idx as int, window_start, now, prev, prev_t, weighted as int, total),
        ensures
            twap_scan(h, start_idx + 1, window_start, now, h[start_idx as int],
                if h[start_idx as int].timestamp < window_start { window_start } else { h[start_idx as int].timestamp }, 0, 0)
                == Ok::<(PriceObservation, u64, int, u64), OracleError>((prev, prev_t, weighted as int, total)),
        decreases n - idx,
    {
        let cur = history[idx];
        if cur.timestamp <= window_start {
            idx = idx + 1;
            continue;
        }
        if cur.timestamp > now {
            break;
        }
        if cur.timestamp > prev_t {
            let dt = cur.timestamp - prev_t;
            let ghost scan_here = twap_scan(h, idx as int, window_start, now, prev, prev_t, weighted as int, total);
            let term = match prev.price.checked_mul(dt as i128) {
                None => {
                    assert(scan_here == Err::<(PriceObservation, u64, int, u64), OracleError>(OracleError::Overflow));
                    assert(twap_spec(twap_window_seconds, h, spot_price, now) == Err::<i128, OracleError>(OracleError::Overflow));
                    return Err(OracleError::Overflow);
                },
                Some(t) => t,
            };
            weighted = match weighted.checked_add(term) {
                None => {
                    assert(scan_here == Err::<(PriceObservation, u64, int, u64), OracleError>(OracleError::Overflow));
                    assert(twap_spec(twap_window_seconds, h, spot_price, now) == Err::<i128, OracleError>(OracleError::Overflow));
                    return Err(OracleError::Overflow);
                },
                Some(w) => w,
            };
            total = sat_add(total, dt);
        }
        prev = cur;
        prev_t = cur.timestamp;
        idx = idx + 1;
    }
    let last_price = if prev.timestamp == 0 { spot_price } else { prev.price };
    if now > prev_t {
        let dt = now - prev_t;
        let term = match last_price.checked_mul(dt as i128) {
            None => return Err(OracleError::Overflow),
            Some(t) => t,
        };
        weighted = match weighted.checked_add(term) {
            None => return Err(OracleError::Overflow),
            Some(w) => w,
        };
        total = sat_add(total, dt);
    }
    if total == 0 {
        return Ok(spot_price);
    }
    match weighted.checked_div(total as i128) {
        None => Err(OracleError::Overflow),
        Some(q) => Ok(q),
    }
}

} // verus!

verus! {

/// Largest deviation of `candidate` from the positive-priced observations at or
/// after `window_start` among `h[..n]`, with the observation price it was
/// measured against (the earliest one on ties).
pub open spec fn volatility_scan(h: Seq<PriceObservation>, n: int, window_start: u64, candidate: i128) -> Result<(i128, i128), OracleError>
    decreases n,
{
    if n <= 0 {
        Ok((0, 0))
    } else {
        match volatility_scan(h, n - 1, window_start, candidate) {
            Err(e) => Err(e),
            Ok((max_dev, reference)) => {
                let obs = h[n - 1];
                if obs.timestamp < window_start || obs.price <= 0 {
                    Ok((max_dev, reference))
                } else {
                    match price_deviation_spec(obs.price as int, candidate as int) {
                        Err(e) => Err(e),
                        Ok(d) => if d > max_dev { Ok((d, obs.price)) } else { Ok((max_dev, reference)) },
                    }
                }
            },
        }
    }
}

proof fn lemma_volatility_err_persists(h: Seq<PriceObservation>, i: int, n: int, ws: u64, c: i128)
    requires
        0 <= i <= n,
        volatility_scan(h, i, ws, c) is Err,
    ensures
        volatility_scan(h, n, ws, c) == volatility_scan(h, i, ws, c),
    decreases n - i,
{
    if i < n {
        lemma_volatility_err_persists(h, i, n - 1, ws, c);
    }
}

/// Scans the observation history for the largest recent deviation from `candidate_price`.
pub fn scan_volatility(history: &Vec<PriceObservation>, window_start: u64, candidate_price: i128) -> (r: Result<(i128, i128), OracleError>)
    ensures
        r == volatility_scan(history@, history@.len() as int, window_start, candidate_price),
{
    let n = history.len();
    let mut max_dev: i128 = 0;
    let mut reference: i128 = 0;
    let mut i: usize = 0;
    while i < n
        invariant
            i <= n,
            n == history@.len(),
            volatility_scan(history@, i as int, window_start, candidate_price) == Ok::<(i128, i128), OracleError>((max_dev, reference)),
        decreases n - i,
    {
        let obs = history[i];
        if !(obs.timestamp < window_start || obs.price <= 0) {
            match price_deviation_bps(obs.price, candidate_price) {
                Err(e) => {
                    assert(volatility_scan(history@, i + 1, window_start, candidate_price) == Err::<(i128, i128), OracleError>(e));
                    proof { lemma_volatility_err_persists(history@, i + 1, n as int, window_start, candidate_price); }
                    return Err(e);
                },
                Ok(d) => {
                    if d > max_dev {
                        max_dev = d;
                        reference = obs.price;
                    }
                },
            }
        }
        i = i + 1;
    }
    Ok((max_dev, reference))
}

/// All observed prices lie in `[lo, hi]`.
pub open spec fn prices_within(h: Seq<PriceObservation>, lo: int, hi: int) -> bool {
    forall|i: int| 0 <= i < h.len() ==> lo <= #[trigger] h[i].price <= hi
}

/// The seconds the TWAP scan covers, counted without saturating: the
/// segments between successive in-window observations up to `now`.
pub open spec fn covered_scan(h: Seq<PriceObservation>, idx: int, ws: u64, now: u64, prev_t: u64, total: int) -> (u64, int)
    decreases h.len() - idx,
{
    if idx >= h.len() {
        (prev_t, total)
    } else {
        let cur = h[idx];
        if cur.timestamp <= ws {
            covered_scan(h, idx + 1, ws, now, prev_t, total)
        } else if cur.timestamp > now {
            (prev_t, total)
        } else if cur.timestamp > prev_t {
            covered_scan(h, idx + 1, ws, now, cur.timestamp, total + (cur.timestamp - prev_t))
        } else {
            covered_scan(h, idx + 1, ws, now, cur.timestamp, total)
        }
    }
}

/// The seconds the TWAP over `[now - window, now]` covers, counted without
/// saturating (the last segment runs to `now`).
pub open spec fn twap_covered(window: u64, h: Seq<PriceObservation>, now: u64) -> int {
    if window == 0 || h.len() == 0 {
        0
    } else {
        let ws: u64 = if now >= window { (now - window) as u64 } else { 0 };
        let s = twap_start(h, ws, 0);
        let prev_t: u64 = if h[s].timestamp < ws { ws } else { h[s].timestamp };
        let (pt, t) = covered_scan(h, s + 1, ws, now, prev_t, 0);
        if now > pt { t + (now - pt) } else { t }
    }
}

proof fn lemma_covered_grows(h: Seq<PriceObservation>, idx: int, ws: u64, now: u64, prev_t: u64, total: int)
    ensures
        covered_scan(h, idx, ws, now, prev_t, total).1 >= total,
    decreases h.len() - idx,
{
    if idx < h.len() {
        let cur = h[idx];
        if cur.timestamp <= ws {
            lemma_covered_grows(h, idx + 1, ws, now, prev_t, total);
        } else if cur.timestamp > now {
        } else if cur.timestamp > prev_t {
            lemma_covered_grows(h, idx + 1, ws, now, cur.timestamp, total + (cur.timestamp - prev_t));
        } else {
            lemma_covered_grows(h, idx + 1, ws, now, cur.timestamp, total);
        }
    }
}

proof fn lemma_twap_scan_within(h: Seq<PriceObservation>, idx: int, ws: u64, now: u64, prev: PriceObservation, prev_t: u64,
    weighted: int, total: u64, lo: int, hi: int)
    requires
        0 <= idx,
        prices_within(h, lo, hi),
        lo <= prev.price <= hi,
        lo * total <= weighted <= hi * total,
    ensures
        covered_scan(h, idx, ws, now, prev_t, total as int).1 <= u64::MAX ==> (
            twap_scan(h, idx, ws, now, prev, prev_t, weighted, total) matches Ok((p, pt, w, t)) ==> {
                &&& lo <= p.price <= hi
                &&& lo * t <= w <= hi * t
                &&& pt == covered_scan(h, idx, ws, now, prev_t, total as int).0
                &&& t == covered_scan(h, idx, ws, now, prev_t, total as int).1
            }),
    decreases h.len() - idx,
{
    if idx < h.len() {
        let cur = h[idx];
        assert(lo <= cur.price <= hi);
        if cur.timestamp <= ws {
            lemma_twap_scan_within(h, idx + 1, ws, now, prev, prev_t, weighted, total, lo, hi);
        } else if cur.timestamp > now {
        } else if cur.timestamp > prev_t {
            let dt: int = cur.timestamp - prev_t;
            lemma_covered_grows(h, idx + 1, ws, now, cur.timestamp, total + dt);
            if covered_scan(h, idx, ws, now, prev_t, total as int).1 <= u64::MAX
                && fits_i128(prev.price * dt) && fits_i128(weighted + prev.price * dt) {
                assert(lo * dt <= prev.price * dt <= hi * dt) by (nonlinear_arith) requires lo <= prev.price <= hi, dt >= 0;
                assert(lo * (total + dt) == lo * total + lo * dt && hi * (total + dt) == hi * total + hi * dt) by (nonlinear_arith);
                assert(sat_add_u64(total, dt as u64) == total + dt);
                lemma_twap_scan_within(h, idx + 1, ws, now, cur, cur.timestamp, weighted + prev.price * dt,
                    sat_add_u64(total, dt as u64), lo, hi);
            }
        } else {
            lemma_twap_scan_within(h, idx + 1, ws, now, cur, cur.timestamp, weighted, total, lo, hi);
        }
    }
}

proof fn lemma_tdiv_within(w: int, t: int, lo: int, hi: int)
    requires
        t > 0,
        lo * t <= w <= hi * t,
    ensures
        lo <= tdiv(w, t) <= hi,
{
    if w >= 0 {
        vstd::arithmetic::div_mod::lemma_fundamental_div_mod(w, t);
        vstd::arithmetic::div_mod::lemma_mod_pos_bound(w, t);
        let q = w / t;
        let r = w % t;
        assert(lo <= q) by (nonlinear_arith) requires w == t * q + r, 0 <= r < t, lo * t <= w, t > 0;
        assert(q <= hi) by (nonlinear_arith) requires w == t * q + r, 0 <= r < t, w <= hi * t, t > 0;
        if w == 0 {
            assert(q == 0) by (nonlinear_arith) requires 0 == t * q + r, 0 <= r < t, t > 0;
        }
    } else {
        let n = -w;
        vstd::arithmetic::div_mod::lemma_fundamental_div_mod(n, t);
        vstd::arithmetic::div_mod::lemma_mod_pos_bound(n, t);
        let q = n / t;
        let r = n % t;
        assert(tdiv(w, t) == -q);
        assert(lo <= -q) by (nonlinear_arith) requires n == t * q + r, 0 <= r < t, lo * t <= -n, t > 0;
        assert(-q <= hi) by (nonlinear_arith) requires n == t * q + r, 0 <= r < t, -n <= hi * t, t > 0;
    }
}

/// The time-weighted average price lies between the lowest and the highest
/// price it averages (the observed prices and, for an empty or unpriced
/// history, the spot price), whenever the seconds it covers fit a `u64`
/// (beyond that the covered-seconds counter saturates).
pub proof fn lemma_twap_within_price_range(window: u64, h: Seq<PriceObservation>, spot: i128, now: u64, lo: int, hi: int)
    requires
        i128::MIN <= lo,
        hi <= i128::MAX,
        prices_within(h, lo, hi),
        lo <= spot <= hi,
        twap_covered(window, h, now) <= u64::MAX,
    ensures
        twap_spec(window, h, spot, now) matches Ok(v) ==> lo <= v <= hi,
{
    if window != 0 && h.len() > 0 {
        let ws: u64 = if now >= window { (now - window) as u64 } else { 0 };
        let s = twap_start(h, ws, 0);
        lemma_twap_start_bound(h, ws, 0);
        let prev = h[s];
        let prev_t: u64 = if prev.timestamp < ws { ws } else { prev.timestamp };
        assert(lo * 0 <= 0 <= hi * 0) by (nonlinear_arith);
        let (cpt, ct) = covered_scan(h, s + 1, ws, now, prev_t, 0);
        assert(ct <= u64::MAX);
        lemma_twap_scan_within(h, s + 1, ws, now, prev, prev_t, 0, 0, lo, hi);
        match twap_scan(h, s + 1, ws, now, prev, prev_t, 0, 0) {
            Err(_) => {},
            Ok((p, pt, w, t)) => {
                let last_price: int = if p.timestamp == 0 { spot as int } else { p.price as int };
                if now > pt {
                    let dt: int = now - pt;
                    assert(lo * dt <= last_price * dt <= hi * dt) by (nonlinear_arith) requires lo <= last_price <= hi, dt >= 0;
                    assert(lo * (t + dt) == lo * t + lo * dt && hi * (t + dt) == hi * t + hi * dt) by (nonlinear_arith);
                    assert(sat_add_u64(t, dt as u64) == t + dt);
                    if t + dt > 0 {
                        lemma_tdiv_within(w + last_price * dt, t + dt, lo, hi);
                    }
                } else if t > 0 {
                    lemma_tdiv_within(w, t as int, lo, hi);
                }
            },
        }
    }
}

} // verus!
