//! Oracle hub: governance registers one price feed per asset (with a priority
//! and a staleness threshold), may update or disable it; the feed's oracle
//! reports prices; reads serve the latest price unless it is stale. The
//! authorisation of governance and oracles is checked around this logic.
use vstd::prelude::*;
use crate::types::AccountId;
use crate::table::Table;

verus! {

/// A registered feed.
#[derive(Copy, Clone, Debug, PartialEq, Eq, Structural)]
pub struct PriceFeed {
    pub asset: AccountId,
    pub oracle_address: AccountId,
    pub priority: u32,
    pub enabled: bool,
    pub stale_threshold_seconds: u64,
}

/// A reported price.
#[derive(Copy, Clone, Debug, PartialEq, Eq, Structural)]
pub struct PricePoint {
    pub asset: AccountId,
    pub price: i128,
    pub timestamp: u64,
    pub confidence: u32,
}

/// Health of an asset's feed: 0 active, 1 stale, 2 disabled (or missing).
#[derive(Copy, Clone, Debug, PartialEq, Eq, Structural)]
pub struct FeedStatus {
    pub asset: AccountId,
    pub status: u32,
    pub last_update: u64,
    pub is_stale: bool,
}

pub const FEED_STATUS_ACTIVE: u32 = 0;
pub const FEED_STATUS_STALE: u32 = 1;
pub const FEED_STATUS_DISABLED: u32 = 2;

/// Hub state.
pub struct OracleHubContract {
    pub governance: AccountId,
    pub admin: AccountId,
    pub feed_count: u32,
    pub feeds: Table<AccountId, PriceFeed>,
    pub prices: Table<AccountId, PricePoint>,
}

/// The latest price of an asset as served at `now`.
pub open spec fn price_spec(h: OracleHubContract, asset: AccountId, now: u64) -> Option<PricePoint> {
    if !h.prices@.contains_key(asset) {
        None
    } else {
        let p = h.prices@[asset];
        if h.feeds@.contains_key(asset) && now - p.timestamp > h.feeds@[asset].stale_threshold_seconds { None } else { Some(p) }
    }
}

impl OracleHubContract {
    /// A hub under `governance`, with no feeds.
    pub fn initialize(governance: AccountId, admin: AccountId) -> (r: Self)
        ensures
            r.governance == governance && r.admin == admin && r.feed_count == 0,
            r.feeds@ == Map::<AccountId, PriceFeed>::empty(),
            r.prices@ == Map::<AccountId, PricePoint>::empty(),
    {
        OracleHubContract { governance, admin, feed_count: 0, feeds: Table::new(), prices: Table::new() }
    }

    /// Registers (or replaces) the feed of an asset, enabled.
    pub fn register_feed(&mut self, asset: AccountId, oracle_address: AccountId, priority: u32, stale_threshold_seconds: u64)
        requires
            priority > 0,
            stale_threshold_seconds > 0,
            old(self).feed_count < u32::MAX,
        ensures
            final(self).feeds@ == old(self).feeds@.insert(asset, PriceFeed { asset, oracle_address, priority, enabled: true,
                stale_threshold_seconds }),
            final(self).feed_count == old(self).feed_count + 1,
            final(self).prices@ == old(self).prices@,
            final(self).governance == old(self).governance,
    {
        self.feeds.set(asset, PriceFeed { asset, oracle_address, priority, enabled: true, stale_threshold_seconds });
        self.feed_count = self.feed_count + 1;
    }

    /// Changes a feed's priority and staleness threshold.
    pub fn update_feed(&mut self, asset: AccountId, priority: u32, stale_threshold_seconds: u64)
        requires
            old(self).feeds@.contains_key(asset),
        ensures
            final(self).feeds@ == old(self).feeds@.insert(asset, PriceFeed { priority, stale_threshold_seconds,
                ..old(self).feeds@[asset] }),
            final(self).prices@ == old(self).prices@ && final(self).feed_count == old(self).feed_count,
    {
        let mut f = self.feeds.get(&asset).unwrap();
        f.priority = priority;
        f.stale_threshold_seconds = stale_threshold_seconds;
        self.feeds.set(asset, f);
    }

    /// Disables a feed.
    pub fn disable_feed(&mut self, asset: AccountId)
        requires
            old(self).feeds@.contains_key(asset),
        ensures
            final(self).feeds@ == old(self).feeds@.insert(asset, PriceFeed { enabled: false, ..old(self).feeds@[asset] }),
            final(self).prices@ == old(self).prices@ && final(self).feed_count == old(self).feed_count,
    {
        let mut f = self.feeds.get(&asset).unwrap();
        f.enabled = false;
        self.feeds.set(asset, f);
    }

    /// Records a positive price reported through an enabled feed.
    pub fn report_price(&mut self, asset: AccountId, price: i128, confidence: u32, now: u64)
        requires
            old(self).feeds@.contains_key(asset),
            old(self).feeds@[asset].enabled,
            price > 0,
        ensures
            final(self).prices@ == old(self).prices@.insert(asset, PricePoint { asset, price, timestamp: now, confidence }),
            final(self).feeds@ == old(self).feeds@ && final(self).feed_count == old(self).feed_count,
    {
        self.prices.set(asset, PricePoint { asset, price, timestamp: now, confidence });
    }

    /// The latest price, unless older than the feed's staleness threshold.
    pub fn get_price(&self, asset: AccountId, now: u64) -> (r: Option<PricePoint>)
        requires
            self.prices@.contains_key(asset) && self.feeds@.contains_key(asset) ==> self.prices@[asset].timestamp <= now,
        ensures
            r == price_spec(*self, asset, now),
    {
        match self.prices.get(&asset) {
            None => None,
            Some(p) => match self.feeds.get(&asset) {
                Some(f) => if now - p.timestamp > f.stale_threshold_seconds { None } else { Some(p) },
                None => Some(p),
            },
        }
    }

    /// Health of an asset's feed.
    pub fn check_feed_health(&self, asset: AccountId, now: u64) -> (r: FeedStatus)
        requires
            self.prices@.contains_key(asset) && self.feeds@.contains_key(asset) ==> self.prices@[asset].timestamp <= now,
        ensures
            r == (if self.feeds@.contains_key(asset) && self.prices@.contains_key(asset) {
                let f = self.feeds@[asset];
                let p = self.prices@[asset];
                let stale = now - p.timestamp > f.stale_threshold_seconds;
                FeedStatus { asset, status: if !f.enabled { 2u32 } else if stale { 1u32 } else { 0u32 },
                    last_update: p.timestamp, is_stale: stale }
            } else {
                FeedStatus { asset, status: 2, last_update: 0, is_stale: true }
            }),
    {
        match (self.feeds.get(&asset), self.prices.get(&asset)) {
            (Some(f), Some(p)) => {
                let stale = now - p.timestamp > f.stale_threshold_seconds;
                let status = if !f.enabled { FEED_STATUS_DISABLED } else if stale { FEED_STATUS_STALE } else { FEED_STATUS_ACTIVE };
                FeedStatus { asset, status, last_update: p.timestamp, is_stale: stale }
            },
            _ => FeedStatus { asset, status: FEED_STATUS_DISABLED, last_update: 0, is_stale: true },
        }
    }
}

/// A price just reported is served until its feed's staleness threshold passes.
pub proof fn lemma_report_then_read(h: OracleHubContract, asset: AccountId, price: i128, confidence: u32, now: u64, later: u64,
    prices2: Map<AccountId, PricePoint>)
    requires
        h.feeds@.contains_key(asset),
        prices2 == h.prices@.insert(asset, PricePoint { asset, price, timestamp: now, confidence }),
        now <= later <= now + h.feeds@[asset].stale_threshold_seconds,
    ensures
        prices2.contains_key(asset),
        later - prices2[asset].timestamp <= h.feeds@[asset].stale_threshold_seconds,
        prices2[asset].price == price,
{
}

} // verus!
