//! Per-asset price oracle: authorised feed updates with deviation guards,
//! multi-source aggregation (median with outlier removal), TWAP, a price
//! cache, source-divergence and volatility monitoring, and a circuit breaker
//! that reopens only after a cooldown followed by stable observations.
use vstd::prelude::*;
use crate::math::fits_i128;
use crate::types::AccountId;
use crate::oracle_math::{OracleError, PriceObservation, dev_bps, price_deviation_spec, deviation_bps,
    price_deviation_bps, median_spec, median_i128, filter_outliers_spec, filter_outliers, sat_add_u64,
    twap_spec, compute_twap, volatility_scan, scan_volatility};

verus! {

/// Price feed written by an oracle.
#[derive(Clone, Copy, Debug, PartialEq, Eq, Structural)]
pub struct PriceFeed {
    pub price: i128,
    pub last_updated: u64,
    pub oracle: AccountId,
    pub decimals: u32,
}

/// A cached price with its time-to-live.
#[derive(Clone, Copy, Debug, PartialEq, Eq, Structural)]
pub struct CachedPrice {
    pub price: i128,
    pub cached_at: u64,
    pub ttl: u64,
}

/// Oracle safety parameters.
#[derive(Clone, Copy, Debug, PartialEq, Eq, Structural)]
pub struct OracleConfig {
    pub max_deviation_bps: i128,
    pub max_staleness_seconds: u64,
    pub cache_ttl_seconds: u64,
    pub min_price: i128,
    pub max_price: i128,
    pub twap_window_seconds: u64,
    pub max_observations: u32,
    pub min_sources: u32,
    pub outlier_deviation_bps: i128,
    pub breaker_deviation_bps: i128,
    pub breaker_cooldown_seconds: u64,
}

/// Per-asset circuit breaker.
#[derive(Clone, Copy, Debug, PartialEq, Eq, Structural)]
pub struct CircuitBreakerState {
    /// Reads are halted until this time (and stabilisation).
    pub open_until: u64,
    /// Last accepted safe price, the breaker's reference.
    pub last_safe_price: i128,
    /// When the breaker last tripped.
    pub last_trip_timestamp: u64,
}

/// Kinds of oracle incidents.
#[derive(Copy, Clone, Debug, PartialEq, Eq, Structural)]
pub enum OracleIncidentKind {
    SourceDeviationAlert,
    SourceDeviationPause,
    StalePrice,
    VolatilityPause,
    BreakerDeviationPause,
    PriceStabilized,
}

/// The latest incident of an asset, for monitoring.
#[derive(Clone, Copy, Debug, PartialEq, Eq, Structural)]
pub struct OracleIncidentReport {
    pub asset: AccountId,
    pub kind: OracleIncidentKind,
    pub observed_bps: i128,
    pub threshold_bps: i128,
    pub reference_price: i128,
    pub observed_price: i128,
    pub timestamp: u64,
    pub open_until: u64,
}

/// The latest feed of an additional source.
#[derive(Clone, Copy, Debug, PartialEq, Eq, Structural)]
pub struct SourceFeed {
    pub source: AccountId,
    pub feed: PriceFeed,
}

const SOURCE_ALERT_DEVIATION_BPS: i128 = 200;
const SOURCE_PAUSE_DEVIATION_BPS: i128 = 1000;
const VOLATILITY_WINDOW_SECONDS: u64 = 600;
const VOLATILITY_BREAKER_BPS: i128 = 2000;
const STABLE_DEVIATION_BPS: i128 = 200;
const STABILIZATION_REQUIRED_OBSERVATIONS: u32 = 3;

/// Default parameters: 5% update deviation, 1 h staleness, 5 min cache,
/// prices in [1, i128::MAX], 30 min TWAP over up to 64 observations, one
/// source minimum, 10% outlier band, 25% breaker deviation, 10 min cooldown.
pub open spec fn default_config_spec() -> OracleConfig {
    OracleConfig {
        max_deviation_bps: 500,
        max_staleness_seconds: 3600,
        cache_ttl_seconds: 300,
        min_price: 1,
        max_price: i128::MAX,
        twap_window_seconds: 1800,
        max_observations: 64,
        min_sources: 1,
        outlier_deviation_bps: 1000,
        breaker_deviation_bps: 2500,
        breaker_cooldown_seconds: 600,
    }
}

/// The default oracle configuration.
pub fn get_default_config() -> (r: OracleConfig)
    ensures
        r == default_config_spec(),
{
    OracleConfig {
        max_deviation_bps: 500,
        max_staleness_seconds: 3600,
        cache_ttl_seconds: 300,
        min_price: 1,
        max_price: i128::MAX,
        twap_window_seconds: 1800,
        max_observations: 64,
        min_sources: 1,
        outlier_deviation_bps: 1000,
        breaker_deviation_bps: 2500,
        breaker_cooldown_seconds: 600,
    }
}

/// The configuration in effect: the stored one or the defaults.
pub fn get_oracle_config(stored: Option<OracleConfig>) -> (r: OracleConfig)
    ensures
        r == (match stored { Some(c) => c, None => default_config_spec() }),
{
    match stored {
        Some(c) => c,
        None => get_default_config(),
    }
}

/// A price passes the sanity checks: positive and within [min, max].
pub open spec fn price_valid(cfg: OracleConfig, price: i128) -> bool {
    price > 0 && cfg.min_price <= price <= cfg.max_price
}

/// Sanity-checks a price.
pub fn validate_price(cfg: &OracleConfig, price: i128) -> (r: Result<(), OracleError>)
    ensures
        r == (if price_valid(*cfg, price) { Ok(()) } else { Err(OracleError::InvalidPrice) }),
{
    if price <= 0 {
        return Err(OracleError::InvalidPrice);
    }
    if price < cfg.min_price || price > cfg.max_price {
        return Err(OracleError::InvalidPrice);
    }
    Ok(())
}

/// A price is stale when stamped in the future or older than the threshold.
pub open spec fn stale(cfg: OracleConfig, now: u64, last_updated: u64) -> bool {
    now < last_updated || now - last_updated > cfg.max_staleness_seconds
}

/// Is a price stamped `last_updated` stale at `now`?
pub fn is_price_stale(cfg: &OracleConfig, now: u64, last_updated: u64) -> (r: bool)
    ensures
        r == stale(*cfg, now, last_updated),
{
    if now < last_updated {
        return true;
    }
    now - last_updated > cfg.max_staleness_seconds
}

/// Deviation between consecutive updates must not exceed the configured maximum.
pub open spec fn update_deviation_spec(cfg: OracleConfig, new_price: i128, old_price: i128) -> Result<(), OracleError> {
    if old_price == 0 {
        Ok(())
    } else {
        let diff: int = if new_price > old_price { new_price - old_price } else { old_price - new_price };
        if !fits_i128(diff) || !fits_i128(diff * 10_000) {
            Err(OracleError::Overflow)
        } else if !fits_i128(crate::math::tdiv(diff * 10_000, old_price as int)) {
            Err(OracleError::Overflow)
        } else if crate::math::tdiv(diff * 10_000, old_price as int) > cfg.max_deviation_bps {
            Err(OracleError::PriceDeviationExceeded)
        } else {
            Ok(())
        }
    }
}

/// Rejects an update that moves the price by more than the configured maximum.
pub fn check_price_deviation(cfg: &OracleConfig, new_price: i128, old_price: i128) -> (r: Result<(), OracleError>)
    ensures
        r == update_deviation_spec(*cfg, new_price, old_price),
{
    if old_price == 0 {
        return Ok(());
    }
    let diff = if new_price > old_price {
        match new_price.checked_sub(old_price) { None => return Err(OracleError::Overflow), Some(d) => d }
    } else {
        match old_price.checked_sub(new_price) { None => return Err(OracleError::Overflow), Some(d) => d }
    };
    let p = match diff.checked_mul(10000) { None => return Err(OracleError::Overflow), Some(p) => p };
    let dev = match p.checked_div(old_price) { None => return Err(OracleError::Overflow), Some(q) => q };
    if dev > cfg.max_deviation_bps {
        return Err(OracleError::PriceDeviationExceeded);
    }
    Ok(())
}

/// The cached price when `now` lies within `[cached_at, cached_at + ttl]`.
pub open spec fn cached_price_spec(cache: Option<CachedPrice>, now: u64) -> Option<i128> {
    match cache {
        Some(c) => if c.cached_at <= now && now <= sat_add_u64(c.cached_at, c.ttl) { Some(c.price) } else { None },
        None => None,
    }
}

fn sat_add(a: u64, b: u64) -> (r: u64)
    ensures
        r == sat_add_u64(a, b),
{
    match a.checked_add(b) {
        Some(v) => v,
        None => u64::MAX,
    }
}

/// A valid cached price.
pub fn get_cached_price(cache: Option<CachedPrice>, now: u64) -> (r: Option<i128>)
    ensures
        r == cached_price_spec(cache, now),
{
    match cache {
        Some(c) => if now >= c.cached_at && now <= sat_add(c.cached_at, c.ttl) { Some(c.price) } else { None },
        None => None,
    }
}

/// Abstract state of one asset's oracle.
pub struct OracleView {
    pub asset: AccountId,
    pub primary_feed: Option<PriceFeed>,
    pub primary_oracle: Option<AccountId>,
    pub fallback_oracle: Option<AccountId>,
    pub fallback_feed: Option<PriceFeed>,
    pub sources: Seq<AccountId>,
    pub source_feeds: Seq<SourceFeed>,
    pub cache: Option<CachedPrice>,
    pub history: Seq<PriceObservation>,
    pub breaker: CircuitBreakerState,
    pub stability_count: u32,
    pub incident: Option<OracleIncidentReport>,
}

/// Persisted oracle state of one asset.
pub struct AssetOracle {
    pub asset: AccountId,
    pub primary_feed: Option<PriceFeed>,
    pub primary_oracle: Option<AccountId>,
    pub fallback_oracle: Option<AccountId>,
    pub fallback_feed: Option<PriceFeed>,
    pub sources: Vec<AccountId>,
    pub source_feeds: Vec<SourceFeed>,
    pub cache: Option<CachedPrice>,
    pub history: Vec<PriceObservation>,
    pub breaker: CircuitBreakerState,
    pub stability_count: u32,
    pub incident: Option<OracleIncidentReport>,
}

impl View for AssetOracle {
    type V = OracleView;

    open spec fn view(&self) -> OracleView {
        OracleView {
            asset: self.asset,
            primary_feed: self.primary_feed,
            primary_oracle: self.primary_oracle,
            fallback_oracle: self.fallback_oracle,
            fallback_feed: self.fallback_feed,
            sources: self.sources@,
            source_feeds: self.source_feeds@,
            cache: self.cache,
            history: self.history@,
            breaker: self.breaker,
            stability_count: self.stability_count,
            incident: self.incident,
        }
    }
}

/// The latest stored feed of a source (the last entry for it).
pub open spec fn lookup_feed(s: Seq<SourceFeed>, src: AccountId) -> Option<PriceFeed>
    decreases s.len(),
{
    if s.len() == 0 {
        None
    } else if s.last().source == src {
        Some(s.last().feed)
    } else {
        lookup_feed(s.drop_last(), src)
    }
}

/// Entries of other sources, in order.
pub open spec fn without_source(s: Seq<SourceFeed>, src: AccountId) -> Seq<SourceFeed>
    decreases s.len(),
{
    if s.len() == 0 {
        s
    } else if s.last().source == src {
        without_source(s.drop_last(), src)
    } else {
        without_source(s.drop_last(), src).push(s.last())
    }
}

/// Is the breaker holding reads: tripped and either cooling down or not yet stabilised.
pub open spec fn breaker_open_spec(v: OracleView, now: u64) -> bool {
    !(v.breaker.open_until == 0 || v.breaker.open_until <= v.breaker.last_trip_timestamp)
        && (now < v.breaker.open_until || v.stability_count < 3)
}

/// `v` with the incident replaced.
pub open spec fn with_incident(v: OracleView, asset: AccountId, kind: OracleIncidentKind, obs_bps: i128, thr: i128,
    reference: i128, observed: i128, now: u64, open_until: u64) -> OracleView
{
    OracleView {
        incident: Some(OracleIncidentReport { asset, kind, observed_bps: obs_bps, threshold_bps: thr,
            reference_price: reference, observed_price: observed, timestamp: now, open_until }),
        ..v
    }
}

/// Trips the breaker for the cooldown, seeds the reference price if unset,
/// resets stabilisation and records the incident.
pub open spec fn open_breaker_spec(v: OracleView, cfg: OracleConfig, now: u64, kind: OracleIncidentKind, obs_bps: i128, thr: i128,
    reference: i128, observed: i128) -> OracleView
{
    let until = sat_add_u64(now, cfg.breaker_cooldown_seconds);
    let b = CircuitBreakerState {
        open_until: until,
        last_trip_timestamp: now,
        last_safe_price: if v.breaker.last_safe_price <= 0 && reference > 0 { reference } else { v.breaker.last_safe_price },
    };
    with_incident(OracleView { breaker: b, stability_count: 0, ..v }, v.asset, kind, obs_bps, thr, reference, observed, now, until)
}

/// The observation history after recording `price` at `now`: appended, then
/// trimmed to the newest `max_observations` entries (nothing kept when 0).
pub open spec fn appended_history(h: Seq<PriceObservation>, max: u32, price: i128, now: u64) -> Seq<PriceObservation> {
    if max == 0 {
        h
    } else {
        let h2 = h.push(PriceObservation { price, timestamp: now });
        if h2.len() > max { h2.subrange(h2.len() - max, h2.len() as int) } else { h2 }
    }
}

/// Stale-feed incident for `feed`.
pub open spec fn note_stale_spec(v: OracleView, cfg: OracleConfig, now: u64, feed: PriceFeed) -> OracleView {
    with_incident(v, v.asset, OracleIncidentKind::StalePrice,
        (if now > feed.last_updated { (now - feed.last_updated) as u64 } else { 0u64 }) as i128,
        cfg.max_staleness_seconds as i128, feed.price, feed.price, now, v.breaker.open_until)
}

#[verifier::ext_equal]
/// Accumulator of spot aggregation: fresh candidate prices, whether any feed
/// or any stale feed was seen, and the incident (stale feeds are reported).
pub struct AggAcc {
    pub cands: Seq<i128>,
    pub saw_any: bool,
    pub saw_stale: bool,
    pub view: OracleView,
}

/// One source feed in the aggregation: fresh prices become candidates, stale ones are reported.
pub open spec fn agg_feed(a: AggAcc, cfg: OracleConfig, now: u64, feed: PriceFeed) -> AggAcc {
    if !stale(cfg, now, feed.last_updated) {
        AggAcc { cands: a.cands.push(feed.price), saw_any: true, ..a }
    } else {
        AggAcc { saw_any: true, saw_stale: true, view: note_stale_spec(a.view, cfg, now, feed), ..a }
    }
}

/// Aggregation over the first `n` configured sources.
pub open spec fn agg_sources(a: AggAcc, cfg: OracleConfig, now: u64, srcs: Seq<AccountId>, feeds: Seq<SourceFeed>, n: int) -> AggAcc
    decreases n,
{
    if n <= 0 {
        a
    } else {
        let prev = agg_sources(a, cfg, now, srcs, feeds, n - 1);
        match lookup_feed(feeds, srcs[n - 1]) {
            Some(f) => agg_feed(prev, cfg, now, f),
            None => prev,
        }
    }
}

/// Candidates from the primary feed, the fallback feed (only from the
/// configured fallback oracle) and the additional sources.
pub open spec fn agg_collect(v: OracleView, cfg: OracleConfig, now: u64) -> AggAcc {
    agg_sources(agg_slots(v, cfg, now), cfg, now, v.sources, v.source_feeds, v.sources.len() as int)
}

/// Aggregation over the primary and the fallback slot.
pub open spec fn agg_slots(v: OracleView, cfg: OracleConfig, now: u64) -> AggAcc {
    let a0 = AggAcc { cands: Seq::empty(), saw_any: false, saw_stale: false, view: v };
    let a1 = match v.primary_feed { Some(f) => agg_feed(a0, cfg, now, f), None => a0 };
    let a2 = match v.fallback_oracle {
        Some(fo) => match v.fallback_feed {
            Some(f) => if f.oracle == fo && !stale(cfg, now, f.last_updated) {
                AggAcc { cands: a1.cands.push(f.price), saw_any: true, ..a1 }
            } else if stale(cfg, now, f.last_updated) {
                AggAcc { saw_any: true, saw_stale: true, view: note_stale_spec(a1.view, cfg, now, f), ..a1 }
            } else {
                AggAcc { saw_any: true, ..a1 }
            },
            None => a1,
        },
        None => a1,
    };
    a2
}

/// Spot price: median of the candidates, outliers removed, at least
/// `min_sources` survivors, then the median of the survivors.
pub open spec fn aggregate_spec(v: OracleView, cfg: OracleConfig, now: u64) -> (OracleView, Result<i128, OracleError>) {
    let a = agg_collect(v, cfg, now);
    if a.cands.len() == 0 {
        (a.view, if a.saw_any && a.saw_stale { Err(OracleError::StalePrice) } else { Err(OracleError::FallbackNotConfigured) })
    } else {
        match median_spec(a.cands) {
            Err(e) => (a.view, Err(e)),
            Ok(m) => match filter_outliers_spec(a.cands, m, cfg.outlier_deviation_bps) {
                Err(e) => (a.view, Err(e)),
                Ok(f) => if f.len() < cfg.min_sources {
                    (a.view, Err(OracleError::NotEnoughSources))
                } else {
                    (a.view, median_spec(f))
                },
            },
        }
    }
}

/// Outcome of checking a candidate against the breaker's reference price.
pub open spec fn trip_spec(v: OracleView, cfg: OracleConfig, now: u64, candidate: i128) -> (OracleView, Result<(), OracleError>) {
    if cfg.breaker_deviation_bps <= 0 {
        (v, Ok(()))
    } else if v.breaker.last_safe_price <= 0 {
        (OracleView { breaker: CircuitBreakerState { last_safe_price: candidate, open_until: 0, last_trip_timestamp: 0 }, ..v }, Ok(()))
    } else {
        match dev_bps(candidate as int, v.breaker.last_safe_price as int, v.breaker.last_safe_price as int) {
            Err(e) => (v, Err(e)),
            Ok(d) => if d > cfg.breaker_deviation_bps {
                (open_breaker_spec(v, cfg, now, OracleIncidentKind::BreakerDeviationPause, d, cfg.breaker_deviation_bps,
                    v.breaker.last_safe_price, candidate), Err(OracleError::CircuitBreakerOpen))
            } else {
                (v, Ok(()))
            },
        }
    }
}

/// Outcome of the short-window volatility guard.
pub open spec fn volatility_spec(v: OracleView, now: u64, candidate: i128, cfg: OracleConfig) -> (OracleView, Result<bool, OracleError>) {
    let ws: u64 = if now >= 600 { (now - 600) as u64 } else { 0 };
    match volatility_scan(v.history, v.history.len() as int, ws, candidate) {
        Err(e) => (v, Err(e)),
        Ok((d, reference)) => if d > 2000 {
            (open_breaker_spec(v, cfg, now, OracleIncidentKind::VolatilityPause, d, 2000, reference, candidate), Ok(true))
        } else {
            (v, Ok(false))
        },
    }
}

impl AssetOracle {
    /// A fresh oracle state for an asset.
    pub fn new(asset: AccountId) -> (r: Self)
        ensures
            r@.asset == asset,
            r@.primary_feed is None && r@.primary_oracle is None && r@.fallback_oracle is None && r@.fallback_feed is None,
            r@.sources.len() == 0 && r@.source_feeds.len() == 0 && r@.history.len() == 0,
            r@.cache is None && r@.incident is None && r@.stability_count == 0,
            r@.breaker == (CircuitBreakerState { open_until: 0, last_safe_price: 0, last_trip_timestamp: 0 }),
    {
        AssetOracle {
            asset,
            primary_feed: None,
            primary_oracle: None,
            fallback_oracle: None,
            fallback_feed: None,
            sources: Vec::new(),
            source_feeds: Vec::new(),
            cache: None,
            history: Vec::new(),
            breaker: CircuitBreakerState { open_until: 0, last_safe_price: 0, last_trip_timestamp: 0 },
            stability_count: 0,
            incident: None,
        }
    }

    /// The latest feed stored for a source.
    pub fn get_source_feed(&self, src: AccountId) -> (r: Option<PriceFeed>)
        ensures
            r == lookup_feed(self@.source_feeds, src),
    {
        let n = self.source_feeds.len();
        let mut found: Option<PriceFeed> = None;
        let mut i: usize = 0;
        while i < n
            invariant
                i <= n,
                n == self.source_feeds@.len(),
                found == lookup_feed(self.source_feeds@.take(i as int), src),
            decreases n - i,
        {
            assert(self.source_feeds@.take(i + 1).drop_last() =~= self.source_feeds@.take(i as int));
            if self.source_feeds[i].source == src {
                found = Some(self.source_feeds[i].feed);
            }
            i = i + 1;
        }
        assert(self.source_feeds@.take(n as int) =~= self.source_feeds@);
        found
    }

    /// Stores the latest feed of a source, replacing its earlier entry.
    pub fn write_source_feed(&mut self, src: AccountId, feed: PriceFeed)
        ensures
            final(self)@ == (OracleView { source_feeds: without_source(old(self)@.source_feeds, src).push(SourceFeed { source: src, feed }), ..old(self)@ }),
    {
        let ghost s = self.source_feeds@;
        let n = self.source_feeds.len();
        let mut kept: Vec<SourceFeed> = Vec::new();
        let mut i: usize = 0;
        while i < n
            invariant
                i <= n,
                n == self.source_feeds@.len(),
                s == self.source_feeds@,
                kept@ == without_source(s.take(i as int), src),
            decreases n - i,
        {
            assert(s.take(i + 1).drop_last() =~= s.take(i as int));
            let e = self.source_feeds[i];
            if e.source != src {
                kept.push(e);
            }
            i = i + 1;
        }
        assert(s.take(n as int) =~= s);
        kept.push(SourceFeed { source: src, feed });
        self.source_feeds = kept;
    }

    /// Whether reads of the asset are halted by the breaker.
    pub fn is_breaker_open(&self, now: u64) -> (r: bool)
        ensures
            r == breaker_open_spec(self@, now),
    {
        if self.breaker.open_until == 0 || self.breaker.open_until <= self.breaker.last_trip_timestamp {
            return false;
        }
        if now < self.breaker.open_until {
            return true;
        }
        self.stability_count < STABILIZATION_REQUIRED_OBSERVATIONS
    }

    fn write_incident_report(&mut self, kind: OracleIncidentKind, observed_bps: i128, threshold_bps: i128,
        reference_price: i128, observed_price: i128, now: u64, open_until: u64)
        ensures
            final(self)@ == with_incident(old(self)@, old(self)@.asset, kind, observed_bps, threshold_bps, reference_price, observed_price, now, open_until),
    {
        self.incident = Some(OracleIncidentReport {
            asset: self.asset,
            kind,
            observed_bps,
            threshold_bps,
            reference_price,
            observed_price,
            timestamp: now,
            open_until,
        });
    }

    /// Trips the breaker for the configured cooldown and records the incident.
    pub fn open_breaker_with_report(&mut self, cfg: &OracleConfig, now: u64, kind: OracleIncidentKind, observed_bps: i128,
        threshold_bps: i128, reference_price: i128, observed_price: i128)
        ensures
            final(self)@ == open_breaker_spec(old(self)@, *cfg, now, kind, observed_bps, threshold_bps, reference_price, observed_price),
    {
        let open_until = sat_add(now, cfg.breaker_cooldown_seconds);
        self.breaker.open_until = open_until;
        self.breaker.last_trip_timestamp = now;
        if self.breaker.last_safe_price <= 0 && reference_price > 0 {
            self.breaker.last_safe_price = reference_price;
        }
        self.stability_count = 0;
        self.write_incident_report(kind, observed_bps, threshold_bps, reference_price, observed_price, now, open_until);
    }

    /// Records a stale-feed incident.
    pub fn note_stale_feed(&mut self, cfg: &OracleConfig, now: u64, feed: PriceFeed)
        ensures
            final(self)@ == note_stale_spec(old(self)@, *cfg, now, feed),
    {
        let age: u64 = if now > feed.last_updated { now - feed.last_updated } else { 0 };
        let until = self.breaker.open_until;
        self.write_incident_report(OracleIncidentKind::StalePrice, age as i128, cfg.max_staleness_seconds as i128,
            feed.price, feed.price, now, until);
    }

    /// Trips the breaker when `candidate_price` deviates from the last safe
    /// price by more than the breaker threshold; the first price becomes the baseline.
    pub fn maybe_trip_breaker(&mut self, cfg: &OracleConfig, now: u64, candidate_price: i128) -> (r: Result<(), OracleError>)
        ensures
            (final(self)@, r) == trip_spec(old(self)@, *cfg, now, candidate_price),
    {
        if cfg.breaker_deviation_bps <= 0 {
            return Ok(());
        }
        if self.breaker.last_safe_price <= 0 {
            self.breaker = CircuitBreakerState { last_safe_price: candidate_price, open_until: 0, last_trip_timestamp: 0 };
            return Ok(());
        }
        let reference = self.breaker.last_safe_price;
        let diff = if candidate_price > reference {
            match candidate_price.checked_sub(reference) { None => return Err(OracleError::Overflow), Some(x) => x }
        } else {
            match reference.checked_sub(candidate_price) { None => return Err(OracleError::Overflow), Some(x) => x }
        };
        let p = match diff.checked_mul(10_000) { None => return Err(OracleError::Overflow), Some(x) => x };
        let d = p / reference;
        if d > cfg.breaker_deviation_bps {
            self.open_breaker_with_report(cfg, now, OracleIncidentKind::BreakerDeviationPause, d, cfg.breaker_deviation_bps,
                reference, candidate_price);
            return Err(OracleError::CircuitBreakerOpen);
        }
        Ok(())
    }

    /// Remembers the last accepted safe price.
    pub fn record_safe_price(&mut self, safe_price: i128)
        ensures
            final(self)@ == (OracleView { breaker: CircuitBreakerState { last_safe_price: safe_price, ..old(self)@.breaker }, ..old(self)@ }),
    {
        self.breaker.last_safe_price = safe_price;
    }

    /// Caches a price for the configured TTL.
    pub fn cache_price(&mut self, cfg: &OracleConfig, price: i128, now: u64)
        ensures
            final(self)@ == (OracleView { cache: Some(CachedPrice { price, cached_at: now, ttl: cfg.cache_ttl_seconds }), ..old(self)@ }),
    {
        self.cache = Some(CachedPrice { price, cached_at: now, ttl: cfg.cache_ttl_seconds });
    }

    /// Appends an observation, keeping at most `max_observations` (oldest dropped).
    pub fn append_observation(&mut self, cfg: &OracleConfig, price: i128, now: u64)
        ensures
            final(self)@ == (OracleView { history: appended_history(old(self)@.history, cfg.max_observations, price, now), ..old(self)@ }),
    {
        if cfg.max_observations == 0 {
            return;
        }
        let ghost h2 = self.history@.push(PriceObservation { price, timestamp: now });
        self.history.push(PriceObservation { price, timestamp: now });
        let max = cfg.max_observations as usize;
        if self.history.len() > max {
            let drop = self.history.len() - max;
            let mut kept: Vec<PriceObservation> = Vec::new();
            let mut i: usize = drop;
            let n = self.history.len();
            while i < n
                invariant
                    drop <= i <= n,
                    n == self.history@.len(),
                    self.history@ == h2,
                    kept@ == h2.subrange(drop as int, i as int),
                decreases n - i,
            {
                kept.push(self.history[i]);
                i = i + 1;
            }
            self.history = kept;
        }
    }
}


/// One existing feed in source-divergence monitoring: feeds of the updating
/// oracle are skipped, stale ones are reported, others raise the maximum
/// deviation (keeping the earliest feed on ties).
pub open spec fn mon_step(acc: Result<(OracleView, i128, i128), OracleError>, cfg: OracleConfig, now: u64,
    existing: PriceFeed, new_feed: PriceFeed) -> Result<(OracleView, i128, i128), OracleError>
{
    match acc {
        Err(e) => Err(e),
        Ok((v, max_dev, reference)) => if existing.oracle == new_feed.oracle {
            Ok((v, max_dev, reference))
        } else if stale(cfg, now, existing.last_updated) {
            Ok((note_stale_spec(v, cfg, now, existing), max_dev, reference))
        } else {
            match price_deviation_spec(existing.price as int, new_feed.price as int) {
                Err(e) => Err(e),
                Ok(d) => if d > max_dev { Ok((v, d, existing.price)) } else { Ok((v, max_dev, reference)) },
            }
        },
    }
}

/// Monitoring over the first `n` configured sources.
pub open spec fn mon_sources(acc: Result<(OracleView, i128, i128), OracleError>, cfg: OracleConfig, now: u64,
    srcs: Seq<AccountId>, feeds: Seq<SourceFeed>, n: int, new_feed: PriceFeed) -> Result<(OracleView, i128, i128), OracleError>
    decreases n,
{
    if n <= 0 {
        acc
    } else {
        let prev = mon_sources(acc, cfg, now, srcs, feeds, n - 1, new_feed);
        match lookup_feed(feeds, srcs[n - 1]) {
            Some(f) => mon_step(prev, cfg, now, f, new_feed),
            None => prev,
        }
    }
}

proof fn lemma_mon_err_persists(acc: Result<(OracleView, i128, i128), OracleError>, cfg: OracleConfig, now: u64,
    srcs: Seq<AccountId>, feeds: Seq<SourceFeed>, i: int, n: int, new_feed: PriceFeed)
    requires
        0 <= i <= n,
        mon_sources(acc, cfg, now, srcs, feeds, i, new_feed) is Err,
    ensures
        mon_sources(acc, cfg, now, srcs, feeds, n, new_feed) == mon_sources(acc, cfg, now, srcs, feeds, i, new_feed),
    decreases n - i,
{
    if i < n {
        lemma_mon_err_persists(acc, cfg, now, srcs, feeds, i, n - 1, new_feed);
    }
}

/// Monitoring over the primary and the fallback feed, from no deviation.
pub open spec fn mon_slots(v: OracleView, cfg: OracleConfig, now: u64, new_feed: PriceFeed) -> Result<(OracleView, i128, i128), OracleError> {
    let a0: Result<(OracleView, i128, i128), OracleError> = Ok((v, 0, 0));
    let a1 = match v.primary_feed { Some(f) => mon_step(a0, cfg, now, f, new_feed), None => a0 };
    match v.fallback_feed { Some(f) => mon_step(a1, cfg, now, f, new_feed), None => a1 }
}

/// Source-divergence monitoring of a new feed: above 10% the breaker opens
/// (unless the asset is stabilising after a cooldown), above 2% an alert is recorded.
pub open spec fn monitor_spec(v: OracleView, cfg: OracleConfig, now: u64, new_feed: PriceFeed) -> (OracleView, Result<bool, OracleError>) {
    match mon_sources(mon_slots(v, cfg, now, new_feed), cfg, now, v.sources, v.source_feeds, v.sources.len() as int, new_feed) {
        Err(e) => (v, Err(e)),
        Ok((w, max_dev, reference)) => {
            let stabilizing = w.breaker.open_until != 0 && now >= w.breaker.open_until && w.stability_count < 3;
            if max_dev > 1000 && !stabilizing {
                (open_breaker_spec(w, cfg, now, OracleIncidentKind::SourceDeviationPause, max_dev, 1000, reference, new_feed.price), Ok(true))
            } else if max_dev > 200 {
                (with_incident(w, w.asset,
                    if max_dev > 1000 { OracleIncidentKind::SourceDeviationPause } else { OracleIncidentKind::SourceDeviationAlert },
                    max_dev, if max_dev > 1000 { 1000 } else { 200 }, reference, new_feed.price, now, w.breaker.open_until),
                    Ok(max_dev > 1000))
            } else {
                (w, Ok(false))
            }
        },
    }
}

/// Saturating `u32` increment.
pub open spec fn sat_inc_u32(a: u32) -> u32 {
    if a == u32::MAX { a } else { (a + 1) as u32 }
}

/// After the cooldown, observations within 2% of the last safe price count
/// towards stabilisation; three of them close the breaker; a larger move resets the count.
pub open spec fn stable_spec(v: OracleView, now: u64, candidate: i128) -> (OracleView, Result<(), OracleError>) {
    let b = v.breaker;
    if b.open_until == 0 || b.open_until <= b.last_trip_timestamp || now < b.open_until || b.last_safe_price <= 0 {
        (v, Ok(()))
    } else {
        match price_deviation_spec(b.last_safe_price as int, candidate as int) {
            Err(e) => (v, Err(e)),
            Ok(d) => if d > 200 {
                (OracleView { stability_count: 0, ..v }, Ok(()))
            } else {
                let c = sat_inc_u32(v.stability_count);
                if c >= 3 {
                    (with_incident(OracleView { stability_count: c, breaker: CircuitBreakerState { open_until: 0, ..b }, ..v },
                        v.asset, OracleIncidentKind::PriceStabilized, d, 200, b.last_safe_price, candidate, now, 0), Ok(()))
                } else {
                    (OracleView { stability_count: c, ..v }, Ok(()))
                }
            },
        }
    }
}

/// Which slot a caller's update goes to: a fallback oracle that is neither
/// admin nor primary writes the fallback feed; everyone else the primary feed.
pub open spec fn writes_fallback(is_admin: bool, is_primary: bool, is_fallback: bool) -> bool {
    is_fallback && !is_primary && !is_admin
}

/// Outcome of an authorised price update (see `update_price_feed`).
pub open spec fn update_spec(v: OracleView, paused: bool, admin: Option<AccountId>, cfg: OracleConfig, caller: AccountId,
    price: i128, decimals: u32, oracle: AccountId, now: u64) -> (OracleView, Result<i128, OracleError>)
{
    let is_admin = admin == Some(caller);
    let is_primary = v.primary_oracle == Some(caller);
    let is_fallback = v.fallback_oracle == Some(caller);
    if paused {
        (v, Err(OracleError::OraclePaused))
    } else if !is_admin && !is_primary && !is_fallback {
        (v, Err(OracleError::Unauthorized))
    } else if !is_admin && caller != oracle {
        (v, Err(OracleError::Unauthorized))
    } else if !price_valid(cfg, price) {
        (v, Err(OracleError::InvalidPrice))
    } else {
        let to_fallback = writes_fallback(is_admin, is_primary, is_fallback);
        let current = if to_fallback { v.fallback_feed } else { v.primary_feed };
        let dev_ok = match current { Some(f) => update_deviation_spec(cfg, price, f.price), None => Ok(()) };
        if dev_ok is Err {
            (v, Err(dev_ok->Err_0))
        } else {
            let nf = PriceFeed { price, last_updated: now, oracle, decimals };
            let v1 = if to_fallback { OracleView { fallback_feed: Some(nf), ..v } } else { OracleView { primary_feed: Some(nf), ..v } };
            let v2 = OracleView { source_feeds: without_source(v1.source_feeds, oracle).push(SourceFeed { source: oracle, feed: nf }), ..v1 };
            let (v3, m) = monitor_spec(v2, cfg, now, nf);
            if m is Err {
                (v3, Err(m->Err_0))
            } else {
                let (v4, vol) = volatility_spec(v3, now, price, cfg);
                if vol is Err {
                    (v4, Err(vol->Err_0))
                } else {
                    let (v5, st) = stable_spec(v4, now, price);
                    if st is Err {
                        (v5, Err(st->Err_0))
                    } else {
                        let v6 = OracleView { history: appended_history(v5.history, cfg.max_observations, price, now), ..v5 };
                        let v7 = if is_admin { OracleView { primary_oracle: Some(oracle), ..v6 } } else { v6 };
                        let v8 = if !m->Ok_0 && !vol->Ok_0 && !breaker_open_spec(v7, now) {
                            OracleView {
                                cache: Some(CachedPrice { price, cached_at: now, ttl: cfg.cache_ttl_seconds }),
                                breaker: CircuitBreakerState { last_safe_price: price, ..v7.breaker },
                                ..v7
                            }
                        } else {
                            v7
                        };
                        (v8, Ok(price))
                    }
                }
            }
        }
    }
}

impl AssetOracle {
    /// One existing feed in source-divergence monitoring (see `mon_step`).
    fn mon_feed(&mut self, cfg: &OracleConfig, now: u64, existing: PriceFeed, new_feed: PriceFeed,
        max_dev: &mut i128, reference: &mut i128) -> (r: Result<(), OracleError>)
        ensures
            final(self)@ == (OracleView { incident: final(self)@.incident, ..old(self)@ }),
            match mon_step(Ok((old(self)@, *old(max_dev), *old(reference))), *cfg, now, existing, new_feed) {
                Ok((v, m, rf)) => r is Ok && final(self)@ == v && *final(max_dev) == m && *final(reference) == rf,
                Err(e) => r == Err::<(), OracleError>(e) && final(self)@ == old(self)@,
            },
    {
        if existing.oracle == new_feed.oracle {
            return Ok(());
        }
        if is_price_stale(cfg, now, existing.last_updated) {
            self.note_stale_feed(cfg, now, existing);
            return Ok(());
        }
        let d = price_deviation_bps(existing.price, new_feed.price)?;
        if d > *max_dev {
            *max_dev = d;
            *reference = existing.price;
        }
        Ok(())
    }

    /// Compares a new feed with every other stored feed of the asset: a
    /// divergence above 10% opens the breaker (unless the asset is stabilising
    /// after a cooldown), above 2% records an alert. Returns whether the
    /// divergence exceeded the pause threshold; on error nothing is changed.
    pub fn monitor_source_deviation(&mut self, cfg: &OracleConfig, now: u64, new_feed: PriceFeed) -> (r: Result<bool, OracleError>)
        ensures
            (final(self)@, r) == monitor_spec(old(self)@, *cfg, now, new_feed),
    {
        let ghost v0 = self@;
        let saved = self.incident;
        let mut max_dev: i128 = 0;
        let mut reference: i128 = 0;
        let ghost a0: Result<(OracleView, i128, i128), OracleError> = Ok((v0, 0i128, 0i128));
        if let Some(f) = self.primary_feed {
            let res = self.mon_feed(cfg, now, f, new_feed, &mut max_dev, &mut reference);
            if let Err(e) = res {
                proof {
                    let ghost a1 = mon_step(a0, *cfg, now, f, new_feed);
                    let ghost a2 = match v0.fallback_feed { Some(g) => mon_step(a1, *cfg, now, g, new_feed), None => a1 };
                    assert(a2 == Err::<(OracleView, i128, i128), OracleError>(e));
                    lemma_mon_err_persists(a2, *cfg, now, v0.sources, v0.source_feeds, 0, v0.sources.len() as int, new_feed);
                }
                return Err(e);
            }
        }
        let ghost a1 = match v0.primary_feed { Some(f) => mon_step(a0, *cfg, now, f, new_feed), None => a0 };
        assert(a1 == Ok::<(OracleView, i128, i128), OracleError>((self@, max_dev, reference)));
        if let Some(f) = self.fallback_feed {
            let res = self.mon_feed(cfg, now, f, new_feed, &mut max_dev, &mut reference);
            if let Err(e) = res {
                self.incident = saved;
                proof {
                    let ghost a2 = mon_step(a1, *cfg, now, f, new_feed);
                    assert(a2 == Err::<(OracleView, i128, i128), OracleError>(e));
                    lemma_mon_err_persists(a2, *cfg, now, v0.sources, v0.source_feeds, 0, v0.sources.len() as int, new_feed);
                }
                return Err(e);
            }
        }
        let ghost a2 = match v0.fallback_feed { Some(f) => mon_step(a1, *cfg, now, f, new_feed), None => a1 };
        assert(a2 == Ok::<(OracleView, i128, i128), OracleError>((self@, max_dev, reference)));
        let n = self.sources.len();
        let mut i: usize = 0;
        while i < n
            invariant
                i <= n,
                n == v0.sources.len(),
                saved == v0.incident,
                old(self)@ == v0,
                a2 == mon_slots(v0, *cfg, now, new_feed),
                self@ == (OracleView { incident: self@.incident, ..v0 }),
                mon_sources(a2, *cfg, now, v0.sources, v0.source_feeds, i as int, new_feed)
                    == Ok::<(OracleView, i128, i128), OracleError>((self@, max_dev, reference)),
            decreases n - i,
        {
            let src = self.sources[i];
            let fo = self.get_source_feed(src);
            if let Some(f) = fo {
                let res = self.mon_feed(cfg, now, f, new_feed, &mut max_dev, &mut reference);
                if let Err(e) = res {
                    assert(mon_sources(a2, *cfg, now, v0.sources, v0.source_feeds, i + 1, new_feed) == Err::<(OracleView, i128, i128), OracleError>(e));
                    proof { lemma_mon_err_persists(a2, *cfg, now, v0.sources, v0.source_feeds, i + 1, n as int, new_feed); }
                    self.incident = saved;
                    return Err(e);
                }
            }
            i = i + 1;
        }
        let stabilizing = self.breaker.open_until != 0 && now >= self.breaker.open_until
            && self.stability_count < STABILIZATION_REQUIRED_OBSERVATIONS;
        if max_dev > SOURCE_PAUSE_DEVIATION_BPS && !stabilizing {
            self.open_breaker_with_report(cfg, now, OracleIncidentKind::SourceDeviationPause, max_dev,
                SOURCE_PAUSE_DEVIATION_BPS, reference, new_feed.price);
            return Ok(true);
        } else if max_dev > SOURCE_ALERT_DEVIATION_BPS {
            let kind = if max_dev > SOURCE_PAUSE_DEVIATION_BPS {
                OracleIncidentKind::SourceDeviationPause
            } else {
                OracleIncidentKind::SourceDeviationAlert
            };
            let thr = if max_dev > SOURCE_PAUSE_DEVIATION_BPS { SOURCE_PAUSE_DEVIATION_BPS } else { SOURCE_ALERT_DEVIATION_BPS };
            let until = self.breaker.open_until;
            self.write_incident_report(kind, max_dev, thr, reference, new_feed.price, now, until);
        }
        Ok(max_dev > SOURCE_PAUSE_DEVIATION_BPS)
    }
}

fn copy_prices(v: &Vec<i128>) -> (r: Vec<i128>)
    ensures
        r@ == v@,
{
    let mut r: Vec<i128> = Vec::new();
    let mut i: usize = 0;
    while i < v.len()
        invariant
            i <= v.len(),
            r@ == v@.take(i as int),
        decreases v.len() - i,
    {
        r.push(v[i]);
        assert(v@.take(i + 1) =~= v@.take(i as int).push(v@[i as int]));
        i = i + 1;
    }
    assert(v@.take(v.len() as int) =~= v@);
    r
}

impl AssetOracle {
    /// Short-window volatility guard: a move of more than 20% against any
    /// positive observation of the last 10 minutes opens the breaker.
    pub fn maybe_trip_volatility_breaker(&mut self, cfg: &OracleConfig, now: u64, candidate_price: i128) -> (r: Result<bool, OracleError>)
        ensures
            (final(self)@, r) == volatility_spec(old(self)@, now, candidate_price, *cfg),
    {
        let ws: u64 = if now >= VOLATILITY_WINDOW_SECONDS { now - VOLATILITY_WINDOW_SECONDS } else { 0 };
        let scan = scan_volatility(&self.history, ws, candidate_price);
        match scan {
            Err(e) => Err(e),
            Ok((d, reference)) => {
                if d > VOLATILITY_BREAKER_BPS {
                    self.open_breaker_with_report(cfg, now, OracleIncidentKind::VolatilityPause, d, VOLATILITY_BREAKER_BPS,
                        reference, candidate_price);
                    Ok(true)
                } else {
                    Ok(false)
                }
            },
        }
    }

    /// Counts observations close to the last safe price once the cooldown is
    /// over; the third one closes the breaker.
    pub fn record_stable_observation(&mut self, now: u64, candidate_price: i128) -> (r: Result<(), OracleError>)
        ensures
            (final(self)@, r) == stable_spec(old(self)@, now, candidate_price),
    {
        let b = self.breaker;
        if b.open_until == 0 || b.open_until <= b.last_trip_timestamp || now < b.open_until || b.last_safe_price <= 0 {
            return Ok(());
        }
        let d = price_deviation_bps(b.last_safe_price, candidate_price)?;
        if d > STABLE_DEVIATION_BPS {
            self.stability_count = 0;
            return Ok(());
        }
        let c: u32 = if self.stability_count == u32::MAX { u32::MAX } else { self.stability_count + 1 };
        self.stability_count = c;
        if c >= STABILIZATION_REQUIRED_OBSERVATIONS {
            self.breaker.open_until = 0;
            self.write_incident_report(OracleIncidentKind::PriceStabilized, d, STABLE_DEVIATION_BPS, b.last_safe_price,
                candidate_price, now, 0);
        }
        Ok(())
    }

    fn agg_feed_exec(&mut self, cfg: &OracleConfig, now: u64, feed: PriceFeed, cands: &mut Vec<i128>,
        saw_any: &mut bool, saw_stale: &mut bool)
        ensures
            final(self)@ == (OracleView { incident: final(self)@.incident, ..old(self)@ }),
            agg_feed(AggAcc { cands: old(cands)@, saw_any: *old(saw_any), saw_stale: *old(saw_stale), view: old(self)@ }, *cfg, now, feed)
                == (AggAcc { cands: final(cands)@, saw_any: *final(saw_any), saw_stale: *final(saw_stale), view: final(self)@ }),
    {
        *saw_any = true;
        if !is_price_stale(cfg, now, feed.last_updated) {
            cands.push(feed.price);
        } else {
            self.note_stale_feed(cfg, now, feed);
            *saw_stale = true;
        }
    }

    /// Spot price of the asset: the fresh feeds (primary, the fallback when it
    /// comes from the configured fallback oracle, and the additional sources)
    /// are collected, stale ones reported; the median of those within the
    /// outlier band of their median is returned when enough of them remain.
    pub fn aggregate_spot_price(&mut self, cfg: &OracleConfig, now: u64) -> (r: Result<i128, OracleError>)
        ensures
            (final(self)@, r) == aggregate_spec(old(self)@, *cfg, now),
    {
        let ghost v0 = self@;
        let mut cands: Vec<i128> = Vec::new();
        let mut saw_any = false;
        let mut saw_stale = false;
        if let Some(f) = self.primary_feed {
            self.agg_feed_exec(cfg, now, f, &mut cands, &mut saw_any, &mut saw_stale);
        }
        if let Some(fo) = self.fallback_oracle {
            if let Some(f) = self.fallback_feed {
                saw_any = true;
                let st = is_price_stale(cfg, now, f.last_updated);
                if f.oracle == fo && !st {
                    cands.push(f.price);
                } else if st {
                    self.note_stale_feed(cfg, now, f);
                    saw_stale = true;
                }
            }
        }
        assert(agg_slots(v0, *cfg, now) == (AggAcc { cands: cands@, saw_any, saw_stale, view: self@ }));
        let n = self.sources.len();
        let mut i: usize = 0;
        while i < n
            invariant
                i <= n,
                n == v0.sources.len(),
                old(self)@ == v0,
                self@ == (OracleView { incident: self@.incident, ..v0 }),
                agg_sources(agg_slots(v0, *cfg, now), *cfg, now, v0.sources, v0.source_feeds, i as int)
                    == (AggAcc { cands: cands@, saw_any, saw_stale, view: self@ }),
            decreases n - i,
        {
            let src = self.sources[i];
            let fo = self.get_source_feed(src);
            if let Some(f) = fo {
                self.agg_feed_exec(cfg, now, f, &mut cands, &mut saw_any, &mut saw_stale);
            }
            i = i + 1;
        }
        if cands.len() == 0 {
            if saw_any && saw_stale {
                return Err(OracleError::StalePrice);
            }
            return Err(OracleError::FallbackNotConfigured);
        }
        let copy = copy_prices(&cands);
        let m = median_i128(copy)?;
        let filtered = filter_outliers(cfg.outlier_deviation_bps, m, cands)?;
        if filtered.len() < cfg.min_sources as usize {
            return Err(OracleError::NotEnoughSources);
        }
        median_i128(filtered)
    }
}

impl AssetOracle {
    /// A price submission by the admin or an authorised oracle: validated,
    /// bounded against the previous price of its slot, stored for the slot and
    /// the source, monitored for divergence and volatility, counted towards
    /// stabilisation and appended to the history. An admin submission makes
    /// `oracle` the primary oracle. The price is cached and becomes the safe
    /// price only when no monitor paused and the breaker is closed.
    pub fn update_price_feed(&mut self, paused: bool, admin: Option<AccountId>, cfg: &OracleConfig, caller: AccountId,
        price: i128, decimals: u32, oracle: AccountId, now: u64) -> (r: Result<i128, OracleError>)
        ensures
            (final(self)@, r) == update_spec(old(self)@, paused, admin, *cfg, caller, price, decimals, oracle, now),
    {
        if paused {
            return Err(OracleError::OraclePaused);
        }
        let is_admin = match admin { Some(a) => a == caller, None => false };
        let is_primary = match self.primary_oracle { Some(p) => p == caller, None => false };
        let is_fallback = match self.fallback_oracle { Some(f) => f == caller, None => false };
        if !is_admin && !is_primary && !is_fallback {
            return Err(OracleError::Unauthorized);
        }
        if !is_admin && caller != oracle {
            return Err(OracleError::Unauthorized);
        }
        validate_price(cfg, price)?;
        let to_fallback = is_fallback && !is_primary && !is_admin;
        let current = if to_fallback { self.fallback_feed } else { self.primary_feed };
        if let Some(f) = current {
            check_price_deviation(cfg, price, f.price)?;
        }
        let new_feed = PriceFeed { price, last_updated: now, oracle, decimals };
        if to_fallback {
            self.fallback_feed = Some(new_feed);
        } else {
            self.primary_feed = Some(new_feed);
        }
        self.write_source_feed(oracle, new_feed);
        let source_pause = self.monitor_source_deviation(cfg, now, new_feed)?;
        let volatility_pause = self.maybe_trip_volatility_breaker(cfg, now, price)?;
        self.record_stable_observation(now, price)?;
        self.append_observation(cfg, price, now);
        if is_admin {
            self.primary_oracle = Some(oracle);
        }
        if !source_pause && !volatility_pause && !self.is_breaker_open(now) {
            self.cache_price(cfg, price, now);
            self.record_safe_price(price);
        }
        Ok(price)
    }
}

/// `v` after accepting `price` as the asset's price: cached and remembered as safe.
pub open spec fn accept_spec(v: OracleView, cfg: OracleConfig, price: i128, now: u64) -> OracleView {
    OracleView {
        cache: Some(CachedPrice { price, cached_at: now, ttl: cfg.cache_ttl_seconds }),
        breaker: CircuitBreakerState { last_safe_price: price, ..v.breaker },
        ..v
    }
}

/// Outcome of a price read (see `get_price`).
pub open spec fn get_price_spec(v: OracleView, cfg: OracleConfig, now: u64) -> (OracleView, Result<i128, OracleError>) {
    if breaker_open_spec(v, now) {
        (v, Err(OracleError::CircuitBreakerOpen))
    } else {
        match cached_price_spec(v.cache, now) {
            Some(p) => (v, Ok(p)),
            None => {
                let (v1, spot) = aggregate_spec(v, cfg, now);
                match spot {
                    Err(e) => (v1, Err(e)),
                    Ok(s) => {
                        let (v2, vol) = volatility_spec(v1, now, s, cfg);
                        if vol is Err {
                            (v2, Err(vol->Err_0))
                        } else if breaker_open_spec(v2, now) {
                            (v2, Err(OracleError::CircuitBreakerOpen))
                        } else {
                            let (v3, t1) = trip_spec(v2, cfg, now, s);
                            if t1 is Err {
                                (v3, Err(t1->Err_0))
                            } else {
                                let v4 = OracleView { history: appended_history(v3.history, cfg.max_observations, s, now), ..v3 };
                                match twap_spec(cfg.twap_window_seconds, v4.history, s, now) {
                                    Err(e) => (v4, Err(e)),
                                    Ok(t) => {
                                        let (v5, t2) = trip_spec(v4, cfg, now, t);
                                        if t2 is Err { (v5, Err(t2->Err_0)) } else { (accept_spec(v5, cfg, t, now), Ok(t)) }
                                    },
                                }
                            }
                        }
                    },
                }
            },
        }
    }
}

/// Liquidation read without a usable TWAP: the spot price, checked by the breaker.
pub open spec fn liquidation_spot_spec(v: OracleView, cfg: OracleConfig, now: u64) -> (OracleView, Result<i128, OracleError>) {
    let (v1, spot) = aggregate_spec(v, cfg, now);
    match spot {
        Err(e) => (v1, Err(e)),
        Ok(s) => {
            let (v2, t) = trip_spec(v1, cfg, now, s);
            if t is Err {
                (v2, Err(t->Err_0))
            } else if breaker_open_spec(v2, now) {
                (v2, Err(OracleError::CircuitBreakerOpen))
            } else {
                (accept_spec(v2, cfg, s, now), Ok(s))
            }
        },
    }
}

/// A positive TWAP is used for liquidations when it lies within the breaker
/// deviation of the spot price (an incomputable deviation counts as 100%).
pub open spec fn twap_usable(spot: i128, twap: i128, cfg: OracleConfig) -> bool {
    twap > 0 && (match price_deviation_spec(spot as int, twap as int) { Ok(d) => d, Err(_) => 10000 }) <= cfg.breaker_deviation_bps
}

/// Outcome of a liquidation price read (see `get_liquidation_price`).
pub open spec fn liquidation_price_spec(v: OracleView, cfg: OracleConfig, now: u64) -> (OracleView, Result<i128, OracleError>) {
    if breaker_open_spec(v, now) {
        (v, Err(OracleError::CircuitBreakerOpen))
    } else {
        match cached_price_spec(v.cache, now) {
            Some(p) => (v, Ok(p)),
            None => if cfg.twap_window_seconds > 0 && v.history.len() > 0 {
                let (v1, spot) = aggregate_spec(v, cfg, now);
                match spot {
                    Err(e) => (v1, Err(e)),
                    Ok(s) => match twap_spec(cfg.twap_window_seconds, v1.history, s, now) {
                        Err(e) => (v1, Err(e)),
                        Ok(t) => if twap_usable(s, t, cfg) {
                            (accept_spec(v1, cfg, t, now), Ok(t))
                        } else {
                            liquidation_spot_spec(v1, cfg, now)
                        },
                    },
                }
            } else {
                liquidation_spot_spec(v, cfg, now)
            },
        }
    }
}

/// Outcome of a spot read (see `get_spot_price`).
pub open spec fn spot_price_spec(v: OracleView, cfg: OracleConfig, now: u64) -> (OracleView, Result<i128, OracleError>) {
    if breaker_open_spec(v, now) {
        (v, Err(OracleError::CircuitBreakerOpen))
    } else {
        let (v1, spot) = aggregate_spec(v, cfg, now);
        match spot {
            Err(e) => (v1, Err(e)),
            Ok(s) => if price_valid(cfg, s) { (v1, Ok(s)) } else { (v1, Err(OracleError::InvalidPrice)) },
        }
    }
}

/// Outcome of a TWAP read (see `get_twap_view`).
pub open spec fn twap_view_spec(v: OracleView, cfg: OracleConfig, now: u64) -> (OracleView, Result<i128, OracleError>) {
    if cfg.twap_window_seconds == 0 || v.history.len() == 0 {
        aggregate_spec(v, cfg, now)
    } else {
        (v, twap_spec(cfg.twap_window_seconds, v.history, v.history.last().price, now))
    }
}

/// Outcome of a fallback read (see `get_fallback_price`).
pub open spec fn fallback_price_spec(v: OracleView, cfg: OracleConfig, now: u64) -> (OracleView, Result<i128, OracleError>) {
    match (v.fallback_oracle, v.fallback_feed) {
        (Some(fo), Some(f)) => if f.oracle == fo && !stale(cfg, now, f.last_updated) {
            (OracleView { cache: Some(CachedPrice { price: f.price, cached_at: now, ttl: cfg.cache_ttl_seconds }), ..v }, Ok(f.price))
        } else {
            (v, Err(OracleError::FallbackNotConfigured))
        },
        _ => (v, Err(OracleError::FallbackNotConfigured)),
    }
}

/// Whether an oracle configuration is acceptable.
pub open spec fn config_valid(c: OracleConfig) -> bool {
    &&& 0 < c.max_deviation_bps <= 10000
    &&& c.max_staleness_seconds != 0
    &&& c.min_sources != 0
    &&& c.max_observations <= 256
    &&& 0 < c.outlier_deviation_bps <= 10000
    &&& 0 < c.breaker_deviation_bps <= 10000
}

/// Installs a new oracle configuration (admin only, validated).
pub fn configure_oracle(stored: &mut Option<OracleConfig>, admin: Option<AccountId>, caller: AccountId, config: OracleConfig)
    -> (r: Result<(), OracleError>)
    ensures
        admin != Some(caller) ==> r == Err::<(), OracleError>(OracleError::Unauthorized),
        admin == Some(caller) && !config_valid(config) ==> r == Err::<(), OracleError>(OracleError::InvalidPrice),
        admin == Some(caller) && config_valid(config) ==> r is Ok,
        *final(stored) == (if r is Ok { Some(config) } else { *old(stored) }),
{
    match admin {
        Some(a) => if a != caller { return Err(OracleError::Unauthorized); },
        None => return Err(OracleError::Unauthorized),
    }
    if config.max_deviation_bps <= 0 || config.max_deviation_bps > 10000 {
        return Err(OracleError::InvalidPrice);
    }
    if config.max_staleness_seconds == 0 {
        return Err(OracleError::InvalidPrice);
    }
    if config.min_sources == 0 {
        return Err(OracleError::InvalidPrice);
    }
    if config.max_observations > 256 {
        return Err(OracleError::InvalidPrice);
    }
    if config.outlier_deviation_bps <= 0 || config.outlier_deviation_bps > 10000 {
        return Err(OracleError::InvalidPrice);
    }
    if config.breaker_deviation_bps <= 0 || config.breaker_deviation_bps > 10000 {
        return Err(OracleError::InvalidPrice);
    }
    *stored = Some(config);
    Ok(())
}

impl AssetOracle {
    /// The asset's price: halted while the breaker is open; the cached price
    /// when valid; otherwise the aggregated spot price passes the volatility
    /// guard and the breaker, is recorded, and its TWAP (checked by the breaker
    /// again) is cached, remembered as safe and returned.
    pub fn get_price(&mut self, cfg: &OracleConfig, now: u64) -> (r: Result<i128, OracleError>)
        ensures
            (final(self)@, r) == get_price_spec(old(self)@, *cfg, now),
    {
        if self.is_breaker_open(now) {
            return Err(OracleError::CircuitBreakerOpen);
        }
        if let Some(p) = get_cached_price(self.cache, now) {
            return Ok(p);
        }
        let spot = self.aggregate_spot_price(cfg, now)?;
        self.maybe_trip_volatility_breaker(cfg, now, spot)?;
        if self.is_breaker_open(now) {
            return Err(OracleError::CircuitBreakerOpen);
        }
        self.maybe_trip_breaker(cfg, now, spot)?;
        self.append_observation(cfg, spot, now);
        let twap = compute_twap(cfg.twap_window_seconds, &self.history, spot, now)?;
        self.maybe_trip_breaker(cfg, now, twap)?;
        self.cache_price(cfg, twap, now);
        self.record_safe_price(twap);
        Ok(twap)
    }

    fn liquidation_spot(&mut self, cfg: &OracleConfig, now: u64) -> (r: Result<i128, OracleError>)
        ensures
            (final(self)@, r) == liquidation_spot_spec(old(self)@, *cfg, now),
    {
        let spot = self.aggregate_spot_price(cfg, now)?;
        self.maybe_trip_breaker(cfg, now, spot)?;
        if self.is_breaker_open(now) {
            return Err(OracleError::CircuitBreakerOpen);
        }
        self.cache_price(cfg, spot, now);
        self.record_safe_price(spot);
        Ok(spot)
    }

    /// Price for liquidations: the TWAP when it is close to the spot price,
    /// otherwise the spot price checked by the breaker; cached and remembered as safe.
    pub fn get_liquidation_price(&mut self, cfg: &OracleConfig, now: u64) -> (r: Result<i128, OracleError>)
        ensures
            (final(self)@, r) == liquidation_price_spec(old(self)@, *cfg, now),
    {
        if self.is_breaker_open(now) {
            return Err(OracleError::CircuitBreakerOpen);
        }
        if let Some(p) = get_cached_price(self.cache, now) {
            return Ok(p);
        }
        if cfg.twap_window_seconds > 0 && self.history.len() > 0 {
            let spot = self.aggregate_spot_price(cfg, now)?;
            let twap = compute_twap(cfg.twap_window_seconds, &self.history, spot, now)?;
            if twap > 0 {
                let d = match price_deviation_bps(spot, twap) { Ok(d) => d, Err(_) => 10000 };
                if d <= cfg.breaker_deviation_bps {
                    self.cache_price(cfg, twap, now);
                    self.record_safe_price(twap);
                    return Ok(twap);
                }
            }
        }
        self.liquidation_spot(cfg, now)
    }

    /// The aggregated spot price, without TWAP; halted while the breaker is open.
    pub fn get_spot_price(&mut self, cfg: &OracleConfig, now: u64) -> (r: Result<i128, OracleError>)
        ensures
            (final(self)@, r) == spot_price_spec(old(self)@, *cfg, now),
    {
        if self.is_breaker_open(now) {
            return Err(OracleError::CircuitBreakerOpen);
        }
        let spot = self.aggregate_spot_price(cfg, now)?;
        validate_price(cfg, spot)?;
        Ok(spot)
    }

    /// The current TWAP anchored at the latest observation, or the spot price
    /// when TWAP is disabled or there is no history.
    pub fn get_twap_view(&mut self, cfg: &OracleConfig, now: u64) -> (r: Result<i128, OracleError>)
        ensures
            (final(self)@, r) == twap_view_spec(old(self)@, *cfg, now),
    {
        if cfg.twap_window_seconds == 0 || self.history.len() == 0 {
            return self.aggregate_spot_price(cfg, now);
        }
        let latest = self.history[self.history.len() - 1];
        compute_twap(cfg.twap_window_seconds, &self.history, latest.price, now)
    }

    /// The fallback feed's price when it is fresh and comes from the configured
    /// fallback oracle (and is then cached).
    pub fn get_fallback_price(&mut self, cfg: &OracleConfig, now: u64) -> (r: Result<i128, OracleError>)
        ensures
            (final(self)@, r) == fallback_price_spec(old(self)@, *cfg, now),
    {
        if let Some(fo) = self.fallback_oracle {
            if let Some(f) = self.fallback_feed {
                if f.oracle == fo && !is_price_stale(cfg, now, f.last_updated) {
                    self.cache_price(cfg, f.price, now);
                    return Ok(f.price);
                }
            }
        }
        Err(OracleError::FallbackNotConfigured)
    }

    /// Sets the primary oracle (admin only).
    pub fn set_primary_oracle(&mut self, admin: Option<AccountId>, caller: AccountId, primary_oracle: AccountId) -> (r: Result<(), OracleError>)
        ensures
            r == (if admin == Some(caller) { Ok(()) } else { Err(OracleError::Unauthorized) }),
            final(self)@ == (if r is Ok { OracleView { primary_oracle: Some(primary_oracle), ..old(self)@ } } else { old(self)@ }),
    {
        match admin {
            Some(a) => if a != caller { return Err(OracleError::Unauthorized); },
            None => return Err(OracleError::Unauthorized),
        }
        self.primary_oracle = Some(primary_oracle);
        Ok(())
    }

    /// Sets the fallback oracle (admin only; not the contract itself).
    pub fn set_fallback_oracle(&mut self, admin: Option<AccountId>, caller: AccountId, fallback_oracle: AccountId,
        contract: AccountId) -> (r: Result<(), OracleError>)
        ensures
            r == (if admin != Some(caller) { Err(OracleError::Unauthorized) }
                else if fallback_oracle == contract { Err(OracleError::InvalidOracle) } else { Ok(()) }),
            final(self)@ == (if r is Ok { OracleView { fallback_oracle: Some(fallback_oracle), ..old(self)@ } } else { old(self)@ }),
    {
        match admin {
            Some(a) => if a != caller { return Err(OracleError::Unauthorized); },
            None => return Err(OracleError::Unauthorized),
        }
        if fallback_oracle == contract {
            return Err(OracleError::InvalidOracle);
        }
        self.fallback_oracle = Some(fallback_oracle);
        Ok(())
    }

    /// Sets the additional sources (admin only).
    pub fn set_oracle_sources(&mut self, admin: Option<AccountId>, caller: AccountId, sources: Vec<AccountId>) -> (r: Result<(), OracleError>)
        ensures
            r == (if admin == Some(caller) { Ok(()) } else { Err(OracleError::Unauthorized) }),
            final(self)@ == (if r is Ok { OracleView { sources: sources@, ..old(self)@ } } else { old(self)@ }),
    {
        match admin {
            Some(a) => if a != caller { return Err(OracleError::Unauthorized); },
            None => return Err(OracleError::Unauthorized),
        }
        self.sources = sources;
        Ok(())
    }

    /// Opens the breaker for `pause_seconds` (admin only).
    pub fn emergency_pause_asset_oracle(&mut self, admin: Option<AccountId>, caller: AccountId, pause_seconds: u64, now: u64)
        -> (r: Result<(), OracleError>)
        ensures
            r == (if admin == Some(caller) { Ok(()) } else { Err(OracleError::Unauthorized) }),
            final(self)@ == (if r is Ok {
                OracleView { breaker: CircuitBreakerState { open_until: sat_add_u64(now, pause_seconds), last_trip_timestamp: now,
                    ..old(self)@.breaker }, ..old(self)@ }
            } else { old(self)@ }),
    {
        match admin {
            Some(a) => if a != caller { return Err(OracleError::Unauthorized); },
            None => return Err(OracleError::Unauthorized),
        }
        self.breaker.open_until = sat_add(now, pause_seconds);
        self.breaker.last_trip_timestamp = now;
        Ok(())
    }

    /// The breaker state.
    pub fn get_oracle_circuit_breaker_state(&self) -> (r: CircuitBreakerState)
        ensures
            r == self@.breaker,
    {
        self.breaker
    }

    /// The latest incident.
    pub fn get_oracle_incident_report(&self) -> (r: Option<OracleIncidentReport>)
        ensures
            r == self@.incident,
    {
        self.incident
    }
}

/// While the breaker holds reads, every price read is refused and changes nothing.
pub proof fn lemma_breaker_halts_reads(v: OracleView, cfg: OracleConfig, now: u64)
    requires
        breaker_open_spec(v, now),
    ensures
        get_price_spec(v, cfg, now) == (v, Err::<i128, OracleError>(OracleError::CircuitBreakerOpen)),
        liquidation_price_spec(v, cfg, now) == (v, Err::<i128, OracleError>(OracleError::CircuitBreakerOpen)),
        spot_price_spec(v, cfg, now) == (v, Err::<i128, OracleError>(OracleError::CircuitBreakerOpen)),
{
}

/// An update while updates are paused, or from a caller that is neither the
/// admin nor an authorised oracle, is refused and changes nothing.
pub proof fn lemma_refused_update_changes_nothing(v: OracleView, paused: bool, admin: Option<AccountId>, cfg: OracleConfig,
    caller: AccountId, price: i128, decimals: u32, oracle: AccountId, now: u64)
    requires
        paused || (admin != Some(caller) && v.primary_oracle != Some(caller) && v.fallback_oracle != Some(caller)),
    ensures
        update_spec(v, paused, admin, cfg, caller, price, decimals, oracle, now).0 == v,
        update_spec(v, paused, admin, cfg, caller, price, decimals, oracle, now).1
            == Err::<i128, OracleError>(if paused { OracleError::OraclePaused } else { OracleError::Unauthorized }),
{
}

/// A read at the time of an accepted update, with the breaker closed, serves
/// the updated price once the update cached it.
pub proof fn lemma_update_then_read(v: OracleView, paused: bool, admin: Option<AccountId>, cfg: OracleConfig,
    caller: AccountId, price: i128, decimals: u32, oracle: AccountId, now: u64)
    requires
        update_spec(v, paused, admin, cfg, caller, price, decimals, oracle, now).1 is Ok,
        !breaker_open_spec(update_spec(v, paused, admin, cfg, caller, price, decimals, oracle, now).0, now),
        update_spec(v, paused, admin, cfg, caller, price, decimals, oracle, now).0.cache
            == Some(CachedPrice { price, cached_at: now, ttl: cfg.cache_ttl_seconds }),
    ensures
        update_spec(v, paused, admin, cfg, caller, price, decimals, oracle, now).1 == Ok::<i128, OracleError>(price),
        get_price_spec(update_spec(v, paused, admin, cfg, caller, price, decimals, oracle, now).0, cfg, now)
            == (update_spec(v, paused, admin, cfg, caller, price, decimals, oracle, now).0, Ok::<i128, OracleError>(price)),
{
}

/// A breaker trip by a large move holds reads for the cooldown (when the
/// cooldown is positive).
pub proof fn lemma_trip_holds_reads(v: OracleView, cfg: OracleConfig, now: u64, candidate: i128, later: u64)
    requires
        trip_spec(v, cfg, now, candidate).1 == Err::<(), OracleError>(OracleError::CircuitBreakerOpen),
        cfg.breaker_cooldown_seconds > 0,
        now <= later < sat_add_u64(now, cfg.breaker_cooldown_seconds),
    ensures
        breaker_open_spec(trip_spec(v, cfg, now, candidate).0, later),
{
}

/// The breaker is released by stabilisation only once three stable
/// observations have been counted.
pub proof fn lemma_release_needs_three_stable(v: OracleView, now: u64, candidate: i128)
    requires
        v.breaker.open_until != 0,
        stable_spec(v, now, candidate).0.breaker.open_until == 0,
    ensures
        stable_spec(v, now, candidate).0.stability_count >= 3,
        !breaker_open_spec(stable_spec(v, now, candidate).0, now),
{
}

/// The deviation rule measures moves in both directions alike: from a
/// non-zero old price, an accepted update moved the price by at most the
/// maximum (`|new - old| * 10 000 / old`, rounded toward zero), a move beyond
/// it whose figure fits is refused as excessive, and a rise and a fall by the
/// same amount get the same verdict.
pub proof fn lemma_deviation_both_directions(cfg: OracleConfig, old_price: i128, d: int)
    requires
        old_price != 0,
        d >= 0,
        fits_i128(old_price + d),
        fits_i128(old_price - d),
    ensures
        ({
            let up = (old_price + d) as i128;
            let down = (old_price - d) as i128;
            &&& update_deviation_spec(cfg, up, old_price) == update_deviation_spec(cfg, down, old_price)
            &&& update_deviation_spec(cfg, up, old_price) is Ok ==>
                crate::math::tdiv(d * 10_000, old_price as int) <= cfg.max_deviation_bps
            &&& (fits_i128(d * 10_000) && crate::math::tdiv(d * 10_000, old_price as int) > cfg.max_deviation_bps
                && fits_i128(crate::math::tdiv(d * 10_000, old_price as int)))
                ==> update_deviation_spec(cfg, down, old_price) == Err::<(), OracleError>(OracleError::PriceDeviationExceeded)
        }),
{
}

} // verus!
