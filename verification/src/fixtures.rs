//! Canonical amounts, durations, rates and asset configurations for scenarios.
use vstd::prelude::*;

verus! {

pub const MIN_AMOUNT: i128 = 100;
pub const MAX_AMOUNT: i128 = 1_000_000_000;
pub const LARGE_CEILING: i128 = 100_000_000_000;
pub const DEFAULT_PRICE: i128 = 1_000_000;

pub const DEFAULT_COLLATERAL_FACTOR: i128 = 7500;
pub const DEFAULT_LIQUIDATION_THRESHOLD: i128 = 8000;
pub const DEFAULT_RESERVE_FACTOR: i128 = 1000;

pub const MAX_BPS: u64 = 10_000;

/// Canonical token amounts.
pub struct AmountFixtures;

impl AmountFixtures {
    pub const ZERO: i128 = 0;
    pub const SMALL: i128 = 1_000;
    pub const MEDIUM: i128 = 100_000;
    pub const LARGE: i128 = 10_000_000;
    pub const HUGE: i128 = 1_000_000_000;
}

/// Canonical durations in seconds.
pub struct TimeFixtures;

impl TimeFixtures {
    pub const MINUTE: u64 = 60;
    pub const HOUR: u64 = 3_600;
    pub const DAY: u64 = 86_400;
    pub const WEEK: u64 = 604_800;
    pub const MONTH: u64 = 2_592_000;
    pub const YEAR: u64 = 31_536_000;
}

/// Canonical rates in basis points.
pub struct RateFixtures;

impl RateFixtures {
    pub const ZERO_PERCENT: i128 = 0;
    pub const ONE_PERCENT: i128 = 100;
    pub const FIVE_PERCENT: i128 = 500;
    pub const TEN_PERCENT: i128 = 1_000;
    pub const FIFTY_PERCENT: i128 = 5_000;
    pub const HUNDRED_PERCENT: i128 = 10_000;
}

/// An asset configuration for scenarios, built fluently.
#[derive(Debug, PartialEq, Eq, Structural)]
pub struct AssetConfigFixture {
    pub collateral_factor: i128,
    pub liquidation_threshold: i128,
    pub reserve_factor: i128,
    pub max_supply: i128,
    pub max_borrow: i128,
    pub price: i128,
}

/// The default fixture: 75% collateral factor, 80% liquidation threshold,
/// 10% reserve factor, supply and borrow limits of 10x and 5x the max amount.
pub open spec fn default_fixture() -> AssetConfigFixture {
    AssetConfigFixture {
        collateral_factor: 7500,
        liquidation_threshold: 8000,
        reserve_factor: 1000,
        max_supply: 10_000_000_000,
        max_borrow: 5_000_000_000,
        price: 1_000_000,
    }
}

impl Default for AssetConfigFixture {
    fn default() -> (r: Self)
        ensures
            r == default_fixture(),
    {
        AssetConfigFixture {
            collateral_factor: DEFAULT_COLLATERAL_FACTOR,
            liquidation_threshold: DEFAULT_LIQUIDATION_THRESHOLD,
            reserve_factor: DEFAULT_RESERVE_FACTOR,
            max_supply: MAX_AMOUNT * 10,
            max_borrow: MAX_AMOUNT * 5,
            price: DEFAULT_PRICE,
        }
    }
}

impl AssetConfigFixture {
    pub fn new() -> (r: Self)
        ensures
            r == default_fixture(),
    {
        Self::default()
    }

    pub fn with_collateral_factor(self, factor: i128) -> (r: Self)
        ensures
            r == (AssetConfigFixture { collateral_factor: factor, ..self }),
    {
        AssetConfigFixture { collateral_factor: factor, ..self }
    }

    pub fn with_liquidation_threshold(self, threshold: i128) -> (r: Self)
        ensures
            r == (AssetConfigFixture { liquidation_threshold: threshold, ..self }),
    {
        AssetConfigFixture { liquidation_threshold: threshold, ..self }
    }

    pub fn with_reserve_factor(self, factor: i128) -> (r: Self)
        ensures
            r == (AssetConfigFixture { reserve_factor: factor, ..self }),
    {
        AssetConfigFixture { reserve_factor: factor, ..self }
    }

    pub fn with_price(self, price: i128) -> (r: Self)
        ensures
            r == (AssetConfigFixture { price, ..self }),
    {
        AssetConfigFixture { price, ..self }
    }

    /// A conservative asset: 50% collateral factor, 60% threshold, 20% reserve.
    pub fn conservative() -> (r: Self)
        ensures
            r == (AssetConfigFixture {
                collateral_factor: 5000, liquidation_threshold: 6000, reserve_factor: 2000,
                max_supply: 1_000_000_000, max_borrow: 500_000_000, price: 1_000_000,
            }),
    {
        AssetConfigFixture {
            collateral_factor: 5000,
            liquidation_threshold: 6000,
            reserve_factor: 2000,
            max_supply: MAX_AMOUNT,
            max_borrow: MAX_AMOUNT / 2,
            price: DEFAULT_PRICE,
        }
    }

    /// An aggressive asset: 90% collateral factor, 95% threshold, 5% reserve.
    pub fn aggressive() -> (r: Self)
        ensures
            r == (AssetConfigFixture {
                collateral_factor: 9000, liquidation_threshold: 9500, reserve_factor: 500,
                max_supply: 100_000_000_000, max_borrow: 90_000_000_000, price: 1_000_000,
            }),
    {
        AssetConfigFixture {
            collateral_factor: 9000,
            liquidation_threshold: 9500,
            reserve_factor: 500,
            max_supply: MAX_AMOUNT * 100,
            max_borrow: MAX_AMOUNT * 90,
            price: DEFAULT_PRICE,
        }
    }
}

} // verus!
