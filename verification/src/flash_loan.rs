//! Flash loans: uncollateralised loans that must be repaid (principal plus a
//! fee) within the same ledger. The decisions are verified here as a state
//! machine: opening a loan (limits, fee, liquidity, manipulation guards and
//! per-asset and per-borrower locks), the sequence check after the borrower's
//! callback, settlement (fee credited to the reserve, locks released) and
//! the repayment check. Token transfers and the callback happen around it.
use vstd::prelude::*;
use crate::math::{fits_i128, tdiv};
use crate::types::AccountId;
use crate::table::{Table, PairKey};

verus! {

/// Errors of flash-loan operations.
#[derive(Copy, Clone, Debug, PartialEq, Eq, Structural)]
pub enum FlashLoanError {
    InvalidAmount,
    InvalidAsset,
    InsufficientLiquidity,
    FlashLoanPaused,
    NotRepaid,
    InsufficientRepayment,
    Overflow,
    Reentrancy,
    InvalidCallback,
    CallbackFailed,
    ExceedsLiquidityCap,
    ExcessivePriceImpact,
    ConcurrentLoan,
    PriceManipulationDetected,
    Expired,
}

/// Attack-prevention parameters.
#[derive(Clone, Copy, Debug, PartialEq, Eq, Structural)]
pub struct FlashManipulationConfig {
    /// Largest share of pool liquidity one loan may take (bps).
    pub max_borrow_liquidity_bps: i128,
    /// Largest price impact of one loan (bps).
    pub max_price_impact_bps: i128,
    /// Largest TWAP-versus-spot deviation before loans are blocked (bps).
    pub max_twap_deviation_bps: i128,
    /// Samples needed before the TWAP check applies.
    pub min_twap_samples: u32,
    /// TWAP window in seconds.
    pub twap_window_secs: u64,
}

/// Per-asset running average of price samples.
#[derive(Clone, Copy, Debug, PartialEq, Eq, Structural)]
pub struct TwapState {
    pub price_sum: i128,
    pub sample_count: u32,
    pub last_update: u64,
    pub twap: i128,
}

/// Fee and limits of flash loans.
#[derive(Clone, Copy, Debug, PartialEq, Eq, Structural)]
pub struct FlashLoanConfig {
    /// Fee in basis points of the amount.
    pub fee_bps: i128,
    pub max_amount: i128,
    pub min_amount: i128,
}

/// An open loan.
#[derive(Clone, Copy, Debug, PartialEq, Eq, Structural)]
pub struct FlashLoanRecord {
    pub amount: i128,
    pub fee: i128,
    pub timestamp: u64,
    /// Ledger sequence in which the loan began.
    pub sequence_number: u32,
    pub callback: AccountId,
}

const BPS_DENOM: i128 = 10_000;

/// Defaults: 9 bps fee, amounts within [100, 10^12].
pub open spec fn default_config_spec() -> FlashLoanConfig {
    FlashLoanConfig { fee_bps: 9, max_amount: 1_000_000_000_000, min_amount: 100 }
}

/// The default loan configuration.
pub fn get_default_config() -> (r: FlashLoanConfig)
    ensures
        r == default_config_spec(),
{
    FlashLoanConfig { fee_bps: 9, max_amount: 1_000_000_000_000, min_amount: 100 }
}

/// Defaults: 50% of liquidity, 1% impact, 2% TWAP deviation after 3 samples, 5 min window.
pub open spec fn default_manipulation_spec() -> FlashManipulationConfig {
    FlashManipulationConfig {
        max_borrow_liquidity_bps: 5_000,
        max_price_impact_bps: 100,
        max_twap_deviation_bps: 200,
        min_twap_samples: 3,
        twap_window_secs: 300,
    }
}

/// The default attack-prevention configuration.
pub fn default_manipulation_config() -> (r: FlashManipulationConfig)
    ensures
        r == default_manipulation_spec(),
{
    FlashManipulationConfig {
        max_borrow_liquidity_bps: 5_000,
        max_price_impact_bps: 100,
        max_twap_deviation_bps: 200,
        min_twap_samples: 3,
        twap_window_secs: 300,
    }
}

/// The attack-prevention configuration in effect.
pub fn get_manipulation_config(stored: Option<FlashManipulationConfig>) -> (r: FlashManipulationConfig)
    ensures
        r == (match stored { Some(c) => c, None => default_manipulation_spec() }),
{
    match stored {
        Some(c) => c,
        None => default_manipulation_config(),
    }
}

/// The loan configuration in effect.
pub fn get_flash_loan_config(stored: Option<FlashLoanConfig>) -> (r: FlashLoanConfig)
    ensures
        r == (match stored { Some(c) => c, None => default_config_spec() }),
{
    match stored {
        Some(c) => c,
        None => get_default_config(),
    }
}

/// Saturating `i128` addition.
pub open spec fn sat_add_i128(a: i128, b: i128) -> i128 {
    if a + b > i128::MAX { i128::MAX } else if a + b < i128::MIN { i128::MIN } else { (a + b) as i128 }
}

fn saturating_add_i128(a: i128, b: i128) -> (r: i128)
    ensures
        r == sat_add_i128(a, b),
{
    match a.checked_add(b) {
        Some(x) => x,
        None => if b > 0 { i128::MAX } else { i128::MIN },
    }
}

/// The accumulator after a sample: positive samples only; a gap longer than
/// the window restarts it, otherwise the sample joins the running average.
pub open spec fn sample_spec(acc: Option<TwapState>, cfg: FlashManipulationConfig, now: u64, spot: i128) -> Option<TwapState> {
    if spot <= 0 {
        acc
    } else {
        let a = match acc { Some(a) => a, None => TwapState { price_sum: spot, sample_count: 0, last_update: 0, twap: spot } };
        let gap: int = if now >= a.last_update { now - a.last_update } else { 0 };
        if gap > cfg.twap_window_secs {
            Some(TwapState { price_sum: spot, sample_count: 1, last_update: now, twap: spot })
        } else {
            let sum = sat_add_i128(a.price_sum, spot);
            let count: u32 = if a.sample_count == u32::MAX { u32::MAX } else { (a.sample_count + 1) as u32 };
            Some(TwapState { price_sum: sum, sample_count: count, last_update: now,
                twap: if count == 0 { a.twap } else { tdiv(sum as int, count as int) as i128 } })
        }
    }
}

/// Adds a spot price to an asset's TWAP accumulator.
pub fn record_price_sample(acc: Option<TwapState>, cfg: &FlashManipulationConfig, now: u64, spot_price: i128) -> (r: Option<TwapState>)
    ensures
        r == sample_spec(acc, *cfg, now, spot_price),
{
    if spot_price <= 0 {
        return acc;
    }
    let mut a = match acc {
        Some(a) => a,
        None => TwapState { price_sum: spot_price, sample_count: 0, last_update: 0, twap: spot_price },
    };
    let gap: u64 = if now >= a.last_update { now - a.last_update } else { 0 };
    if gap > cfg.twap_window_secs {
        a.price_sum = spot_price;
        a.sample_count = 1;
        a.twap = spot_price;
    } else {
        a.price_sum = saturating_add_i128(a.price_sum, spot_price);
        a.sample_count = a.sample_count.saturating_add(1);
        let count: i128 = a.sample_count as i128;
        a.twap = match a.price_sum.checked_div(count) {
            Some(q) => q,
            None => a.twap,
        };
    }
    a.last_update = now;
    Some(a)
}

/// TWAP check: a positive spot price may deviate from a positive average of
/// enough samples by at most the configured bps.
pub open spec fn twap_check_spec(cfg: FlashManipulationConfig, acc: Option<TwapState>, spot: i128) -> Result<(), FlashLoanError> {
    if spot <= 0 {
        Ok(())
    } else {
        match acc {
            Some(a) => if a.sample_count < cfg.min_twap_samples || a.twap <= 0 {
                Ok(())
            } else {
                let diff: int = if spot >= a.twap { spot - a.twap } else { a.twap - spot };
                if !fits_i128(diff * 10_000) {
                    Err(FlashLoanError::Overflow)
                } else if tdiv(diff * 10_000, a.twap as int) > cfg.max_twap_deviation_bps {
                    Err(FlashLoanError::PriceManipulationDetected)
                } else {
                    Ok(())
                }
            },
            None => Ok(()),
        }
    }
}

/// Blocks a loan when the spot price strays too far from the TWAP.
pub fn check_twap_deviation(cfg: &FlashManipulationConfig, acc: Option<TwapState>, spot_price: i128) -> (r: Result<(), FlashLoanError>)
    ensures
        r == twap_check_spec(*cfg, acc, spot_price),
{
    if spot_price <= 0 {
        return Ok(());
    }
    let a = match acc {
        Some(a) => a,
        None => return Ok(()),
    };
    if a.sample_count < cfg.min_twap_samples || a.twap <= 0 {
        return Ok(());
    }
    let diff = if spot_price >= a.twap { spot_price - a.twap } else { a.twap - spot_price };
    let p = match diff.checked_mul(BPS_DENOM) {
        None => return Err(FlashLoanError::Overflow),
        Some(p) => p,
    };
    if p / a.twap > cfg.max_twap_deviation_bps {
        return Err(FlashLoanError::PriceManipulationDetected);
    }
    Ok(())
}

/// Largest loan against a pool: `pool_balance * max_borrow_liquidity_bps / 10 000`.
pub open spec fn liquidity_cap_spec(cfg: FlashManipulationConfig, pool_balance: i128, amount: i128) -> Result<(), FlashLoanError> {
    let p = pool_balance * cfg.max_borrow_liquidity_bps;
    if !fits_i128(p) {
        Err(FlashLoanError::Overflow)
    } else if amount > tdiv(p, 10_000) {
        Err(FlashLoanError::ExceedsLiquidityCap)
    } else {
        Ok(())
    }
}

/// Refuses a loan above the pool-relative cap.
pub fn check_liquidity_cap(cfg: &FlashManipulationConfig, pool_balance: i128, amount: i128) -> (r: Result<(), FlashLoanError>)
    ensures
        r == liquidity_cap_spec(*cfg, pool_balance, amount),
{
    let p = match pool_balance.checked_mul(cfg.max_borrow_liquidity_bps) {
        None => return Err(FlashLoanError::Overflow),
        Some(p) => p,
    };
    let max_borrow = match p.checked_div(BPS_DENOM) {
        None => return Err(FlashLoanError::Overflow),
        Some(q) => q,
    };
    if amount > max_borrow {
        return Err(FlashLoanError::ExceedsLiquidityCap);
    }
    Ok(())
}

/// Price impact `amount * 10 000 / (pool_balance + amount)` (sum saturating) must stay within the limit.
pub open spec fn price_impact_spec(cfg: FlashManipulationConfig, pool_balance: i128, amount: i128) -> Result<(), FlashLoanError> {
    let denom = sat_add_i128(pool_balance, amount);
    let p = amount * 10_000;
    if pool_balance <= 0 {
        Err(FlashLoanError::ExcessivePriceImpact)
    } else if !fits_i128(p) || denom == 0 || !fits_i128(tdiv(p, denom as int)) {
        Err(FlashLoanError::Overflow)
    } else if tdiv(p, denom as int) > cfg.max_price_impact_bps {
        Err(FlashLoanError::ExcessivePriceImpact)
    } else {
        Ok(())
    }
}

/// Refuses a loan whose price impact on the pool is too high.
pub fn check_price_impact(cfg: &FlashManipulationConfig, pool_balance: i128, amount: i128) -> (r: Result<(), FlashLoanError>)
    ensures
        r == price_impact_spec(*cfg, pool_balance, amount),
{
    if pool_balance <= 0 {
        return Err(FlashLoanError::ExcessivePriceImpact);
    }
    let denom = saturating_add_i128(pool_balance, amount);
    let p = match amount.checked_mul(BPS_DENOM) {
        None => return Err(FlashLoanError::Overflow),
        Some(p) => p,
    };
    let impact = match p.checked_div(denom) {
        None => return Err(FlashLoanError::Overflow),
        Some(q) => q,
    };
    if impact > cfg.max_price_impact_bps {
        return Err(FlashLoanError::ExcessivePriceImpact);
    }
    Ok(())
}

/// Fee `amount * fee_bps / 10 000`, truncated.
pub open spec fn fee_spec(cfg: FlashLoanConfig, amount: i128) -> Result<i128, FlashLoanError> {
    let p = amount * cfg.fee_bps;
    if !fits_i128(p) { Err(FlashLoanError::Overflow) } else { Ok(tdiv(p, 10_000) as i128) }
}

/// The fee of a loan.
pub fn calculate_flash_loan_fee(cfg: &FlashLoanConfig, amount: i128) -> (r: Result<i128, FlashLoanError>)
    ensures
        r == fee_spec(*cfg, amount),
{
    let p = match amount.checked_mul(cfg.fee_bps) {
        None => return Err(FlashLoanError::Overflow),
        Some(p) => p,
    };
    match p.checked_div(10000) {
        None => Err(FlashLoanError::Overflow),
        Some(q) => Ok(q),
    }
}

/// Abstract flash-loan state.
#[verifier::ext_equal]
pub struct FlashView {
    pub config: Option<FlashLoanConfig>,
    pub manipulation: Option<FlashManipulationConfig>,
    pub paused: bool,
    /// Assets with a loan in progress.
    pub asset_active: Map<AccountId, bool>,
    /// Open loans by (borrower, asset).
    pub loans: Map<PairKey, FlashLoanRecord>,
    /// Borrowers' re-entry locks by (borrower, asset).
    pub guards: Map<PairKey, bool>,
    /// Protocol reserve per asset.
    pub reserves: Map<AccountId, i128>,
    /// TWAP accumulator per asset.
    pub twaps: Map<AccountId, TwapState>,
}

/// Persisted flash-loan state.
pub struct FlashLoanState {
    pub config: Option<FlashLoanConfig>,
    pub manipulation: Option<FlashManipulationConfig>,
    pub paused: bool,
    pub asset_active: Table<AccountId, bool>,
    pub loans: Table<PairKey, FlashLoanRecord>,
    pub guards: Table<PairKey, bool>,
    pub reserves: Table<AccountId, i128>,
    pub twaps: Table<AccountId, TwapState>,
}

impl View for FlashLoanState {
    type V = FlashView;

    open spec fn view(&self) -> FlashView {
        FlashView {
            config: self.config,
            manipulation: self.manipulation,
            paused: self.paused,
            asset_active: self.asset_active@,
            loans: self.loans@,
            guards: self.guards@,
            reserves: self.reserves@,
            twaps: self.twaps@,
        }
    }
}

/// The key of a borrower's loan of an asset.
pub open spec fn loan_key(user: AccountId, asset: AccountId) -> PairKey {
    PairKey { first: user, second: asset }
}

/// Whether a loan of `asset` is in progress.
pub open spec fn asset_busy(v: FlashView, asset: AccountId) -> bool {
    v.asset_active.contains_key(asset) && v.asset_active[asset]
}

/// Whether the borrower's re-entry lock for `asset` is held.
pub open spec fn guard_held(v: FlashView, user: AccountId, asset: AccountId) -> bool {
    v.guards.contains_key(loan_key(user, asset)) && v.guards[loan_key(user, asset)]
}

/// The checks of a loan request, in order, before anything is locked.
pub open spec fn open_checks(v: FlashView, amount: i128, pool_balance: i128) -> Result<(i128, i128), FlashLoanError> {
    let cfg = match v.config { Some(c) => c, None => default_config_spec() };
    let mcfg = match v.manipulation { Some(c) => c, None => default_manipulation_spec() };
    if amount <= 0 || amount < cfg.min_amount || amount > cfg.max_amount {
        Err(FlashLoanError::InvalidAmount)
    } else if v.paused {
        Err(FlashLoanError::FlashLoanPaused)
    } else {
        match fee_spec(cfg, amount) {
            Err(e) => Err(e),
            Ok(fee) => if !fits_i128(amount + fee) {
                Err(FlashLoanError::Overflow)
            } else if pool_balance < amount {
                Err(FlashLoanError::InsufficientLiquidity)
            } else if liquidity_cap_spec(mcfg, pool_balance, amount) is Err {
                Err(liquidity_cap_spec(mcfg, pool_balance, amount)->Err_0)
            } else if price_impact_spec(mcfg, pool_balance, amount) is Err {
                Err(price_impact_spec(mcfg, pool_balance, amount)->Err_0)
            } else {
                Ok((fee, (amount + fee) as i128))
            },
        }
    }
}

/// Opening a loan: the checks, then the asset lock (refused while another loan
/// of the asset is in progress), the borrower's lock (refused on re-entry)
/// and the loan record. Yields the fee and the amount owed.
pub open spec fn open_spec(v: FlashView, user: AccountId, asset: AccountId, amount: i128, callback: AccountId,
    pool_balance: i128, now: u64, sequence: u32) -> (FlashView, Result<(i128, i128), FlashLoanError>)
{
    match open_checks(v, amount, pool_balance) {
        Err(e) => (v, Err(e)),
        Ok((fee, total)) => if asset_busy(v, asset) {
            (v, Err(FlashLoanError::ConcurrentLoan))
        } else {
            let v1 = FlashView { asset_active: v.asset_active.insert(asset, true), ..v };
            if guard_held(v1, user, asset) {
                (v1, Err(FlashLoanError::Reentrancy))
            } else {
                let rec = FlashLoanRecord { amount, fee, timestamp: now, sequence_number: sequence, callback };
                (FlashView {
                    guards: v1.guards.insert(loan_key(user, asset), true),
                    loans: v1.loans.insert(loan_key(user, asset), rec),
                    ..v1
                }, Ok((fee, total)))
            }
        },
    }
}

/// The loan must be completed in the ledger in which it began.
pub fn check_flash_sequence(start_sequence: u32, current_sequence: u32) -> (r: Result<(), FlashLoanError>)
    ensures
        r == (if start_sequence == current_sequence { Ok(()) } else { Err(FlashLoanError::Expired) }),
{
    if current_sequence != start_sequence {
        return Err(FlashLoanError::Expired);
    }
    Ok(())
}

/// Settling a repaid loan: a positive fee is credited to the asset's reserve,
/// the record is cleared and both locks are released.
pub open spec fn settle_spec(v: FlashView, user: AccountId, asset: AccountId, fee: i128) -> (FlashView, Result<(), FlashLoanError>) {
    let reserve: int = if v.reserves.contains_key(asset) { v.reserves[asset] as int } else { 0 };
    if fee > 0 && !fits_i128(reserve + fee) {
        (v, Err(FlashLoanError::Overflow))
    } else {
        let reserves = if fee > 0 { v.reserves.insert(asset, (reserve + fee) as i128) } else { v.reserves };
        (FlashView {
            reserves,
            loans: v.loans.remove(loan_key(user, asset)),
            asset_active: v.asset_active.insert(asset, false),
            guards: v.guards.remove(loan_key(user, asset)),
            ..v
        }, Ok(()))
    }
}

/// Repayment check of an open loan: it must exist, be in its ledger, and the
/// amount offered must cover principal and fee. Yields the amount to collect.
pub open spec fn repay_spec(v: FlashView, user: AccountId, asset: AccountId, amount: i128, sequence: u32) -> Result<i128, FlashLoanError> {
    if !v.loans.contains_key(loan_key(user, asset)) {
        Err(FlashLoanError::NotRepaid)
    } else {
        let rec = v.loans[loan_key(user, asset)];
        if sequence != rec.sequence_number {
            Err(FlashLoanError::Expired)
        } else if !fits_i128(rec.amount + rec.fee) {
            Err(FlashLoanError::Overflow)
        } else if amount < rec.amount + rec.fee {
            Err(FlashLoanError::InsufficientRepayment)
        } else {
            Ok((rec.amount + rec.fee) as i128)
        }
    }
}

/// Where a running flash loan stands.
#[derive(Copy, Clone, Debug, PartialEq, Eq, Structural)]
pub enum FlashPhase {
    /// Opened; the principal has not left the pool.
    Opened,
    /// The principal was sent to the callback.
    Funded,
    /// The callback was invoked.
    CalledBack,
    /// Principal and fee were collected back.
    Collected,
    /// Finished, repaid or failed.
    Done,
}

/// A running flash loan.
#[derive(Copy, Clone, Debug, PartialEq, Eq, Structural)]
pub struct FlashRun {
    pub user: AccountId,
    pub asset: AccountId,
    pub amount: i128,
    pub fee: i128,
    pub total: i128,
    pub callback: AccountId,
    pub start_sequence: u32,
    pub phase: FlashPhase,
}

/// What the lender does next in a running flash loan.
#[derive(Copy, Clone, Debug, PartialEq, Eq, Structural)]
pub enum FlashAction {
    /// Transfer `amount` of `asset` from the pool to `to`.
    TransferOut { asset: AccountId, to: AccountId, amount: i128 },
    /// Invoke `on_flash_loan(user, asset, amount, fee)` on `callback`.
    InvokeCallback { callback: AccountId, user: AccountId, asset: AccountId, amount: i128, fee: i128 },
    /// Pull `total` of `asset` from `from` back into the pool.
    Collect { asset: AccountId, from: AccountId, total: i128 },
    /// The loan was repaid with `total`.
    Finish { total: i128 },
    /// The loan stops with an error.
    Fail { error: FlashLoanError },
    /// Nothing is left to do.
    Idle,
}

/// One step of a running loan at ledger `sequence`: fund the callback, invoke
/// it, collect principal and fee unless the ledger changed, then settle.
pub open spec fn flash_step_spec(v: FlashView, run: FlashRun, sequence: u32) -> (FlashView, FlashRun, FlashAction) {
    match run.phase {
        FlashPhase::Opened => (v, FlashRun { phase: FlashPhase::Funded, ..run },
            FlashAction::TransferOut { asset: run.asset, to: run.callback, amount: run.amount }),
        FlashPhase::Funded => (v, FlashRun { phase: FlashPhase::CalledBack, ..run },
            FlashAction::InvokeCallback { callback: run.callback, user: run.user, asset: run.asset, amount: run.amount, fee: run.fee }),
        FlashPhase::CalledBack => if sequence != run.start_sequence {
            (v, FlashRun { phase: FlashPhase::Done, ..run }, FlashAction::Fail { error: FlashLoanError::Expired })
        } else {
            (v, FlashRun { phase: FlashPhase::Collected, ..run },
                FlashAction::Collect { asset: run.asset, from: run.callback, total: run.total })
        },
        FlashPhase::Collected => {
            let (v2, r) = settle_spec(v, run.user, run.asset, run.fee);
            (v2, FlashRun { phase: FlashPhase::Done, ..run }, match r {
                Ok(_) => FlashAction::Finish { total: run.total },
                Err(e) => FlashAction::Fail { error: e },
            })
        },
        FlashPhase::Done => (v, run, FlashAction::Idle),
    }
}

/// The run started by opening a loan (see `open_spec`).
pub open spec fn open_run_spec(v: FlashView, user: AccountId, asset: AccountId, amount: i128, callback: AccountId,
    pool_balance: i128, now: u64, sequence: u32) -> (FlashView, Result<FlashRun, FlashLoanError>)
{
    let (v1, r) = open_spec(v, user, asset, amount, callback, pool_balance, now, sequence);
    (v1, match r {
        Ok((fee, total)) => Ok(FlashRun { user, asset, amount, fee, total, callback, start_sequence: sequence, phase: FlashPhase::Opened }),
        Err(e) => Err(e),
    })
}

impl FlashLoanState {
    /// No configuration stored, nothing locked or open.
    pub fn new() -> (r: Self)
        ensures
            r@.config is None && r@.manipulation is None && !r@.paused,
            r@.asset_active == Map::<AccountId, bool>::empty(),
            r@.loans == Map::<PairKey, FlashLoanRecord>::empty(),
            r@.guards == Map::<PairKey, bool>::empty(),
            r@.reserves == Map::<AccountId, i128>::empty(),
            r@.twaps == Map::<AccountId, TwapState>::empty(),
    {
        FlashLoanState {
            config: None,
            manipulation: None,
            paused: false,
            asset_active: Table::new(),
            loans: Table::new(),
            guards: Table::new(),
            reserves: Table::new(),
            twaps: Table::new(),
        }
    }

    /// Whether the borrower has an open loan of the asset.
    pub fn is_flash_loan_active(&self, user: AccountId, asset: AccountId) -> (r: bool)
        ensures
            r == self@.loans.contains_key(loan_key(user, asset)),
    {
        self.loans.contains(&PairKey { first: user, second: asset })
    }

    /// Opens a loan (see `open_spec`); the caller then transfers `amount` to
    /// the callback and invokes it.
    pub fn begin_flash_loan(&mut self, user: AccountId, asset: AccountId, amount: i128, callback: AccountId,
        pool_balance: i128, now: u64, sequence: u32) -> (r: Result<(i128, i128), FlashLoanError>)
        ensures
            (final(self)@, r) == open_spec(old(self)@, user, asset, amount, callback, pool_balance, now, sequence),
    {
        if amount <= 0 {
            return Err(FlashLoanError::InvalidAmount);
        }
        let cfg = get_flash_loan_config(self.config);
        if amount < cfg.min_amount || amount > cfg.max_amount {
            return Err(FlashLoanError::InvalidAmount);
        }
        if self.paused {
            return Err(FlashLoanError::FlashLoanPaused);
        }
        let fee = calculate_flash_loan_fee(&cfg, amount)?;
        let total = match amount.checked_add(fee) {
            None => return Err(FlashLoanError::Overflow),
            Some(t) => t,
        };
        if pool_balance < amount {
            return Err(FlashLoanError::InsufficientLiquidity);
        }
        let mcfg = get_manipulation_config(self.manipulation);
        check_liquidity_cap(&mcfg, pool_balance, amount)?;
        check_price_impact(&mcfg, pool_balance, amount)?;
        if let Some(true) = self.asset_active.get(&asset) {
            return Err(FlashLoanError::ConcurrentLoan);
        }
        self.asset_active.set(asset, true);
        let key = PairKey { first: user, second: asset };
        if let Some(true) = self.guards.get(&key) {
            return Err(FlashLoanError::Reentrancy);
        }
        self.guards.set(key, true);
        self.loans.set(key, FlashLoanRecord { amount, fee, timestamp: now, sequence_number: sequence, callback });
        Ok((fee, total))
    }

    /// Opens a loan and starts its run (see `open_run_spec`); the caller then
    /// performs the actions `flash_step` returns, one by one.
    pub fn open_flash_run(&mut self, user: AccountId, asset: AccountId, amount: i128, callback: AccountId,
        pool_balance: i128, now: u64, sequence: u32) -> (r: Result<FlashRun, FlashLoanError>)
        ensures
            (final(self)@, r) == open_run_spec(old(self)@, user, asset, amount, callback, pool_balance, now, sequence),
    {
        let (fee, total) = self.begin_flash_loan(user, asset, amount, callback, pool_balance, now, sequence)?;
        Ok(FlashRun { user, asset, amount, fee, total, callback, start_sequence: sequence, phase: FlashPhase::Opened })
    }

    /// Advances a running loan at ledger `sequence` and returns the next
    /// outside action (see `flash_step_spec`).
    pub fn flash_step(&mut self, run: FlashRun, sequence: u32) -> (r: (FlashRun, FlashAction))
        ensures
            (final(self)@, r.0, r.1) == flash_step_spec(old(self)@, run, sequence),
    {
        match run.phase {
            FlashPhase::Opened => (FlashRun { phase: FlashPhase::Funded, ..run },
                FlashAction::TransferOut { asset: run.asset, to: run.callback, amount: run.amount }),
            FlashPhase::Funded => (FlashRun { phase: FlashPhase::CalledBack, ..run },
                FlashAction::InvokeCallback { callback: run.callback, user: run.user, asset: run.asset, amount: run.amount, fee: run.fee }),
            FlashPhase::CalledBack => match check_flash_sequence(run.start_sequence, sequence) {
                Err(e) => (FlashRun { phase: FlashPhase::Done, ..run }, FlashAction::Fail { error: e }),
                Ok(()) => (FlashRun { phase: FlashPhase::Collected, ..run },
                    FlashAction::Collect { asset: run.asset, from: run.callback, total: run.total }),
            },
            FlashPhase::Collected => {
                let next = FlashRun { phase: FlashPhase::Done, ..run };
                match self.settle_flash_loan(run.user, run.asset, run.fee) {
                    Ok(()) => (next, FlashAction::Finish { total: run.total }),
                    Err(e) => (next, FlashAction::Fail { error: e }),
                }
            },
            FlashPhase::Done => (run, FlashAction::Idle),
        }
    }

    /// Settles a loan whose principal and fee were collected (see `settle_spec`).
    pub fn settle_flash_loan(&mut self, user: AccountId, asset: AccountId, fee: i128) -> (r: Result<(), FlashLoanError>)
        ensures
            (final(self)@, r) == settle_spec(old(self)@, user, asset, fee),
    {
        if fee > 0 {
            let current = match self.reserves.get(&asset) { Some(x) => x, None => 0 };
            let next = match current.checked_add(fee) {
                None => return Err(FlashLoanError::Overflow),
                Some(x) => x,
            };
            self.reserves.set(asset, next);
        }
        let key = PairKey { first: user, second: asset };
        self.loans.remove(&key);
        self.asset_active.set(asset, false);
        self.guards.remove(&key);
        Ok(())
    }

    /// Checks a repayment of an open loan (see `repay_spec`); the caller then
    /// collects the returned amount.
    pub fn repay_flash_loan(&self, user: AccountId, asset: AccountId, amount: i128, sequence: u32) -> (r: Result<i128, FlashLoanError>)
        ensures
            r == repay_spec(self@, user, asset, amount, sequence),
    {
        let rec = match self.loans.get(&PairKey { first: user, second: asset }) {
            None => return Err(FlashLoanError::NotRepaid),
            Some(rec) => rec,
        };
        if sequence != rec.sequence_number {
            return Err(FlashLoanError::Expired);
        }
        let total = match rec.amount.checked_add(rec.fee) {
            None => return Err(FlashLoanError::Overflow),
            Some(t) => t,
        };
        if amount < total {
            return Err(FlashLoanError::InsufficientRepayment);
        }
        Ok(total)
    }

    /// Replaces the loan configuration (admin only; fee within [0, 10 000] bps).
    pub fn set_flash_loan_config(&mut self, admin: Option<AccountId>, caller: AccountId, new_config: FlashLoanConfig) -> (r: Result<(), FlashLoanError>)
        ensures
            r == (if admin != Some(caller) { Err(FlashLoanError::InvalidCallback) }
                else if !(0 <= new_config.fee_bps <= 10000) { Err(FlashLoanError::InvalidAmount) } else { Ok(()) }),
            final(self)@ == (if r is Ok { FlashView { config: Some(new_config), ..old(self)@ } } else { old(self)@ }),
    {
        match admin {
            Some(a) => if a != caller { return Err(FlashLoanError::InvalidCallback); },
            None => return Err(FlashLoanError::InvalidCallback),
        }
        if new_config.fee_bps < 0 || new_config.fee_bps > 10000 {
            return Err(FlashLoanError::InvalidAmount);
        }
        self.config = Some(new_config);
        Ok(())
    }

    /// Changes only the fee (admin only; within [0, 10 000] bps).
    pub fn set_flash_loan_fee(&mut self, admin: Option<AccountId>, caller: AccountId, fee_bps: i128) -> (r: Result<(), FlashLoanError>)
        ensures
            r == (if admin != Some(caller) { Err(FlashLoanError::InvalidCallback) }
                else if !(0 <= fee_bps <= 10000) { Err(FlashLoanError::InvalidAmount) } else { Ok(()) }),
            final(self)@ == (if r is Ok {
                FlashView { config: Some(FlashLoanConfig {
                    fee_bps, ..(match old(self)@.config { Some(c) => c, None => default_config_spec() }) }), ..old(self)@ }
            } else { old(self)@ }),
    {
        match admin {
            Some(a) => if a != caller { return Err(FlashLoanError::InvalidCallback); },
            None => return Err(FlashLoanError::InvalidCallback),
        }
        if fee_bps < 0 || fee_bps > 10000 {
            return Err(FlashLoanError::InvalidAmount);
        }
        let mut cfg = get_flash_loan_config(self.config);
        cfg.fee_bps = fee_bps;
        self.config = Some(cfg);
        Ok(())
    }

    /// Replaces the attack-prevention configuration (admin only).
    pub fn set_manipulation_config(&mut self, admin: Option<AccountId>, caller: AccountId, config: FlashManipulationConfig) -> (r: Result<(), FlashLoanError>)
        ensures
            r == (if admin == Some(caller) { Ok(()) } else { Err(FlashLoanError::InvalidCallback) }),
            final(self)@ == (if r is Ok { FlashView { manipulation: Some(config), ..old(self)@ } } else { old(self)@ }),
    {
        match admin {
            Some(a) => if a != caller { return Err(FlashLoanError::InvalidCallback); },
            None => return Err(FlashLoanError::InvalidCallback),
        }
        self.manipulation = Some(config);
        Ok(())
    }

    /// Records a spot price sample of an asset.
    pub fn record_price_sample(&mut self, asset: AccountId, spot_price: i128, now: u64)
        ensures
            final(self)@ == (match sample_spec(if old(self)@.twaps.contains_key(asset) { Some(old(self)@.twaps[asset]) } else { None },
                match old(self)@.manipulation { Some(c) => c, None => default_manipulation_spec() }, now, spot_price) {
                Some(t) => FlashView { twaps: old(self)@.twaps.insert(asset, t), ..old(self)@ },
                None => old(self)@,
            }),
    {
        let mcfg = get_manipulation_config(self.manipulation);
        let acc = self.twaps.get(&asset);
        if let Some(t) = record_price_sample(acc, &mcfg, now, spot_price) {
            self.twaps.set(asset, t);
        }
    }
}

/// While a loan of an asset is open, no other loan of that asset can be opened,
/// by the same or any other borrower.
pub proof fn lemma_no_concurrent_loans(v: FlashView, user: AccountId, asset: AccountId, amount: i128, callback: AccountId,
    pool: i128, now: u64, seq: u32, user2: AccountId, amount2: i128, callback2: AccountId, pool2: i128, now2: u64, seq2: u32)
    requires
        open_spec(v, user, asset, amount, callback, pool, now, seq).1 is Ok,
    ensures
        open_spec(open_spec(v, user, asset, amount, callback, pool, now, seq).0, user2, asset, amount2, callback2, pool2, now2, seq2).1 is Err,
{
}

/// Settling an opened loan releases the asset and the borrower, clears the
/// record and credits the fee to the reserve.
pub proof fn lemma_settle_after_open(v: FlashView, user: AccountId, asset: AccountId, amount: i128, callback: AccountId,
    pool: i128, now: u64, seq: u32)
    requires
        open_spec(v, user, asset, amount, callback, pool, now, seq).1 is Ok,
        settle_spec(open_spec(v, user, asset, amount, callback, pool, now, seq).0, user, asset,
            open_spec(v, user, asset, amount, callback, pool, now, seq).1->Ok_0.0).1 is Ok,
    ensures
        ({
            let (v1, r) = open_spec(v, user, asset, amount, callback, pool, now, seq);
            let fee = r->Ok_0.0;
            let v2 = settle_spec(v1, user, asset, fee).0;
            &&& !asset_busy(v2, asset)
            &&& !v2.loans.contains_key(loan_key(user, asset))
            &&& !guard_held(v2, user, asset)
            &&& (if v.reserves.contains_key(asset) { v.reserves[asset] as int } else { 0 }) + (if fee > 0 { fee as int } else { 0 })
                == (if v2.reserves.contains_key(asset) { v2.reserves[asset] as int } else { 0 })
        }),
{
}

/// Right after opening, repayment in the same ledger is accepted exactly when
/// it covers principal and fee, and then collects exactly principal plus fee.
pub proof fn lemma_repay_after_open(v: FlashView, user: AccountId, asset: AccountId, amount: i128, callback: AccountId,
    pool: i128, now: u64, seq: u32, offered: i128)
    requires
        open_spec(v, user, asset, amount, callback, pool, now, seq).1 is Ok,
    ensures
        ({
            let (v1, r) = open_spec(v, user, asset, amount, callback, pool, now, seq);
            let (fee, total) = r->Ok_0;
            &&& total == amount + fee
            &&& repay_spec(v1, user, asset, offered, seq) == (if offered >= total { Ok(total) } else { Err(FlashLoanError::InsufficientRepayment) })
        }),
{
}

/// With a fee rate within [0, 10 000] bps, the fee of a positive amount (small
/// enough that amount * 10 000 fits) lies between zero and the amount.
pub proof fn lemma_fee_bounds(cfg: FlashLoanConfig, amount: i128)
    requires
        0 <= cfg.fee_bps <= 10000,
        0 < amount <= i128::MAX / 10000,
    ensures
        fee_spec(cfg, amount) is Ok,
        0 <= fee_spec(cfg, amount)->Ok_0 <= amount,
{
    assert(0 <= amount * cfg.fee_bps <= amount * 10000) by (nonlinear_arith)
        requires 0 <= cfg.fee_bps <= 10000, amount > 0;
    let p = amount * cfg.fee_bps;
    assert(p / 10000 <= amount);
}

/// An opened loan lies within the configured limits, is funded by the pool,
/// and is recorded with the fee owed on it.
pub proof fn lemma_open_respects_limits(v: FlashView, user: AccountId, asset: AccountId, amount: i128, callback: AccountId,
    pool: i128, now: u64, seq: u32)
    requires
        open_spec(v, user, asset, amount, callback, pool, now, seq).1 is Ok,
    ensures
        ({
            let cfg = match v.config { Some(c) => c, None => default_config_spec() };
            let (v1, r) = open_spec(v, user, asset, amount, callback, pool, now, seq);
            &&& 0 < amount && cfg.min_amount <= amount <= cfg.max_amount
            &&& amount <= pool
            &&& !v.paused
            &&& fee_spec(cfg, amount) == Ok::<i128, FlashLoanError>(r->Ok_0.0)
            &&& v1.loans[loan_key(user, asset)].amount == amount
            &&& v1.loans[loan_key(user, asset)].fee == r->Ok_0.0
            &&& asset_busy(v1, asset)
        }),
{
}

/// A flash loan runs in a fixed order: once opened, the principal goes to the
/// callback, the callback is invoked with principal and fee, and, in the same
/// ledger, principal plus fee are collected back before the loan is settled
/// (fee credited to the reserve, record cleared, locks released). If the
/// ledger changed after the callback, the loan fails as expired and nothing
/// is collected.
pub proof fn lemma_flash_run_order(v: FlashView, user: AccountId, asset: AccountId, amount: i128, callback: AccountId,
    pool: i128, now: u64, seq: u32, later: u32)
    requires
        open_run_spec(v, user, asset, amount, callback, pool, now, seq).1 is Ok,
    ensures
        ({
            let (v0, r) = open_run_spec(v, user, asset, amount, callback, pool, now, seq);
            let run = r->Ok_0;
            let (v1, run1, a1) = flash_step_spec(v0, run, seq);
            let (v2, run2, a2) = flash_step_spec(v1, run1, seq);
            let (v3, run3, a3) = flash_step_spec(v2, run2, later);
            let (v4, run4, a4) = flash_step_spec(v3, run3, later);
            &&& run.total == run.amount + run.fee && run.amount == amount
            &&& a1 == FlashAction::TransferOut { asset, to: callback, amount }
            &&& a2 == FlashAction::InvokeCallback { callback, user, asset, amount, fee: run.fee }
            &&& later != seq ==> a3 == FlashAction::Fail { error: FlashLoanError::Expired } && run3.phase == FlashPhase::Done
            &&& later == seq ==> {
                &&& a3 == FlashAction::Collect { asset, from: callback, total: run.total }
                &&& (v4, settle_spec(v3, user, asset, run.fee).1) == settle_spec(v0, user, asset, run.fee)
                &&& a4 == (match settle_spec(v0, user, asset, run.fee).1 {
                    Ok(_) => FlashAction::Finish { total: run.total },
                    Err(e) => FlashAction::Fail { error: e },
                })
            }
        }),
{
}

} // verus!
