use stellarlend::flash_loan::{
    calculate_flash_loan_fee, check_liquidity_cap, FlashAction, FlashPhase, check_price_impact, check_twap_deviation, default_manipulation_config,
    get_default_config as flash_default_config, record_price_sample, FlashLoanConfig, FlashLoanError, FlashLoanState,
    TwapState,
};
use stellarlend::oracle::{configure_oracle, get_default_config, AssetOracle, OracleIncidentKind};
use stellarlend::oracle_math::{compute_twap, filter_outliers, median_i128, price_deviation_bps, OracleError, PriceObservation};

const ADMIN: u64 = 1;
const ORACLE_A: u64 = 2;
const ASSET: u64 = 100;

#[test]
fn oracle_admin_update_then_read() {
    let cfg = get_default_config();
    let mut o = AssetOracle::new(ASSET);
    assert_eq!(o.update_price_feed(false, Some(ADMIN), &cfg, ADMIN, 1_000, 7, ORACLE_A, 10), Ok(1_000));
    assert_eq!(o.primary_oracle, Some(ORACLE_A));
    assert_eq!(o.get_price(&cfg, 10), Ok(1_000));
    assert_eq!(o.get_spot_price(&cfg, 20), Ok(1_000));
}

#[test]
fn oracle_rejects_unauthorized_and_paused() {
    let cfg = get_default_config();
    let mut o = AssetOracle::new(ASSET);
    assert_eq!(o.update_price_feed(true, Some(ADMIN), &cfg, ADMIN, 1_000, 7, ORACLE_A, 10), Err(OracleError::OraclePaused));
    assert_eq!(o.update_price_feed(false, Some(ADMIN), &cfg, 9, 1_000, 7, 9, 10), Err(OracleError::Unauthorized));
    assert_eq!(o.update_price_feed(false, Some(ADMIN), &cfg, ADMIN, 0, 7, ORACLE_A, 10), Err(OracleError::InvalidPrice));
    assert!(o.primary_feed.is_none());
}

#[test]
fn oracle_deviation_limit_between_updates() {
    let cfg = get_default_config();
    let mut o = AssetOracle::new(ASSET);
    o.update_price_feed(false, Some(ADMIN), &cfg, ADMIN, 1_000, 7, ORACLE_A, 10).unwrap();
    assert_eq!(
        o.update_price_feed(false, Some(ADMIN), &cfg, ORACLE_A, 1_100, 7, ORACLE_A, 20),
        Err(OracleError::PriceDeviationExceeded)
    );
    assert_eq!(o.update_price_feed(false, Some(ADMIN), &cfg, ORACLE_A, 1_050, 7, ORACLE_A, 20), Ok(1_050));
}

#[test]
fn oracle_stale_feed_is_refused() {
    let cfg = get_default_config();
    let mut o = AssetOracle::new(ASSET);
    o.update_price_feed(false, Some(ADMIN), &cfg, ADMIN, 1_000, 7, ORACLE_A, 10).unwrap();
    assert_eq!(o.get_spot_price(&cfg, 10 + 3_601), Err(OracleError::StalePrice));
    assert_eq!(o.get_oracle_incident_report().unwrap().kind, OracleIncidentKind::StalePrice);
}

#[test]
fn oracle_emergency_pause_halts_reads() {
    let cfg = get_default_config();
    let mut o = AssetOracle::new(ASSET);
    o.update_price_feed(false, Some(ADMIN), &cfg, ADMIN, 1_000, 7, ORACLE_A, 10).unwrap();
    assert_eq!(o.emergency_pause_asset_oracle(Some(ADMIN), 5, 100, 10), Err(OracleError::Unauthorized));
    o.emergency_pause_asset_oracle(Some(ADMIN), ADMIN, 100, 10).unwrap();
    assert!(o.is_breaker_open(50));
    assert_eq!(o.get_price(&cfg, 50), Err(OracleError::CircuitBreakerOpen));
    assert_eq!(o.get_oracle_circuit_breaker_state().open_until, 110);
}

#[test]
fn oracle_breaker_trips_on_large_move() {
    let cfg = get_default_config();
    let mut o = AssetOracle::new(ASSET);
    assert_eq!(o.maybe_trip_breaker(&cfg, 10, 1_000), Ok(()));
    assert_eq!(o.get_oracle_circuit_breaker_state().last_safe_price, 1_000);
    assert_eq!(o.maybe_trip_breaker(&cfg, 20, 1_300), Err(OracleError::CircuitBreakerOpen));
    let b = o.get_oracle_circuit_breaker_state();
    assert_eq!((b.open_until, b.last_trip_timestamp), (620, 20));
    assert!(o.is_breaker_open(619));
}

#[test]
fn oracle_configuration_checks() {
    let mut stored = None;
    let mut cfg = get_default_config();
    assert_eq!(configure_oracle(&mut stored, Some(ADMIN), 5, cfg), Err(OracleError::Unauthorized));
    cfg.min_sources = 0;
    assert_eq!(configure_oracle(&mut stored, Some(ADMIN), ADMIN, cfg), Err(OracleError::InvalidPrice));
    assert_eq!(stored, None);
    cfg.min_sources = 2;
    assert_eq!(configure_oracle(&mut stored, Some(ADMIN), ADMIN, cfg), Ok(()));
    assert_eq!(stored, Some(cfg));
}

#[test]
fn oracle_fallback_oracle_rules() {
    let cfg = get_default_config();
    let mut o = AssetOracle::new(ASSET);
    assert_eq!(o.set_fallback_oracle(Some(ADMIN), ADMIN, 42, 42), Err(OracleError::InvalidOracle));
    assert_eq!(o.set_fallback_oracle(Some(ADMIN), ADMIN, 3, 42), Ok(()));
    assert_eq!(o.get_fallback_price(&cfg, 0), Err(OracleError::FallbackNotConfigured));
    o.update_price_feed(false, Some(ADMIN), &cfg, 3, 900, 7, 3, 5).unwrap();
    assert_eq!(o.get_fallback_price(&cfg, 5), Ok(900));
}

#[test]
fn oracle_math_exact_values() {
    assert_eq!(price_deviation_bps(1_000, 1_100), Ok(1_000));
    assert_eq!(price_deviation_bps(0, 1_100), Err(OracleError::InvalidPrice));
    assert_eq!(median_i128(vec![5, 1, 3]), Ok(3));
    assert_eq!(median_i128(vec![4, 1, 3, 2]), Ok(3));
    assert_eq!(median_i128(vec![]), Err(OracleError::NotEnoughSources));
    assert_eq!(filter_outliers(1_000, 100, vec![95, 100, 120, -1]), Ok(vec![95, 100]));
    assert_eq!(filter_outliers(0, 100, vec![95, 120]), Ok(vec![95, 120]));
    assert_eq!(filter_outliers(1_000, 0, vec![95]), Err(OracleError::InvalidPrice));
}

#[test]
fn twap_weights_by_time() {
    let history = vec![
        PriceObservation { price: 100, timestamp: 0 },
        PriceObservation { price: 200, timestamp: 50 },
    ];
    assert_eq!(compute_twap(100, &history, 999, 100), Ok(150));
    assert_eq!(compute_twap(0, &history, 999, 100), Ok(999));
    assert_eq!(compute_twap(100, &vec![], 999, 100), Ok(999));
}

#[test]
fn flash_fee_and_guards_exact_values() {
    let cfg = flash_default_config();
    assert_eq!(calculate_flash_loan_fee(&cfg, 10_000), Ok(9));
    let one_pct = FlashLoanConfig { fee_bps: 100, ..cfg };
    assert_eq!(calculate_flash_loan_fee(&one_pct, 10_000), Ok(100));
    assert_eq!(calculate_flash_loan_fee(&one_pct, i128::MAX), Err(FlashLoanError::Overflow));
    let m = default_manipulation_config();
    assert_eq!(check_liquidity_cap(&m, 100_000, 50_000), Ok(()));
    assert_eq!(check_liquidity_cap(&m, 100_000, 50_001), Err(FlashLoanError::ExceedsLiquidityCap));
    assert_eq!(check_price_impact(&m, 1_000_000, 10_000), Ok(()));
    assert_eq!(check_price_impact(&m, 1_000_000, 20_000), Err(FlashLoanError::ExcessivePriceImpact));
    assert_eq!(check_price_impact(&m, 0, 1), Err(FlashLoanError::ExcessivePriceImpact));
}

#[test]
fn flash_twap_accumulator_and_check() {
    let m = default_manipulation_config();
    let mut acc: Option<TwapState> = None;
    acc = record_price_sample(acc, &m, 1_000, 1_000);
    acc = record_price_sample(acc, &m, 1_010, 1_000);
    acc = record_price_sample(acc, &m, 1_020, 1_030);
    let a = acc.unwrap();
    assert_eq!((a.sample_count, a.twap), (3, 1_010));
    assert_eq!(check_twap_deviation(&m, acc, 1_030), Ok(()));
    assert_eq!(check_twap_deviation(&m, acc, 1_050), Err(FlashLoanError::PriceManipulationDetected));
    assert_eq!(record_price_sample(acc, &m, 1_030, -5), acc);
    let restarted = record_price_sample(acc, &m, 2_000, 700).unwrap();
    assert_eq!((restarted.sample_count, restarted.twap), (1, 700));
}

#[test]
fn flash_loan_lifecycle() {
    let mut s = FlashLoanState::new();
    let (fee, total) = s.begin_flash_loan(7, ASSET, 10_000, 8, 10_000_000, 5, 3).unwrap();
    assert_eq!((fee, total), (9, 10_009));
    assert!(s.is_flash_loan_active(7, ASSET));
    assert_eq!(s.begin_flash_loan(9, ASSET, 10_000, 8, 10_000_000, 5, 3), Err(FlashLoanError::ConcurrentLoan));
    assert_eq!(s.repay_flash_loan(7, ASSET, 10_008, 3), Err(FlashLoanError::InsufficientRepayment));
    assert_eq!(s.repay_flash_loan(7, ASSET, 10_009, 4), Err(FlashLoanError::Expired));
    assert_eq!(s.repay_flash_loan(7, ASSET, 10_009, 3), Ok(10_009));
    s.settle_flash_loan(7, ASSET, fee).unwrap();
    assert!(!s.is_flash_loan_active(7, ASSET));
    assert_eq!(s.repay_flash_loan(7, ASSET, 10_009, 3), Err(FlashLoanError::NotRepaid));
    assert!(s.begin_flash_loan(9, ASSET, 10_000, 8, 10_000_000, 5, 3).is_ok());
}

#[test]
fn flash_loan_run_actions_in_order() {
    let mut s = FlashLoanState::new();
    let run = s.open_flash_run(7, ASSET, 10_000, 8, 10_000_000, 5, 3).unwrap();
    assert_eq!((run.fee, run.total, run.phase), (9, 10_009, FlashPhase::Opened));
    let (run, a1) = s.flash_step(run, 3);
    assert_eq!(a1, FlashAction::TransferOut { asset: ASSET, to: 8, amount: 10_000 });
    let (run, a2) = s.flash_step(run, 3);
    assert_eq!(a2, FlashAction::InvokeCallback { callback: 8, user: 7, asset: ASSET, amount: 10_000, fee: 9 });
    let (run, a3) = s.flash_step(run, 3);
    assert_eq!(a3, FlashAction::Collect { asset: ASSET, from: 8, total: 10_009 });
    assert!(s.is_flash_loan_active(7, ASSET));
    let (run, a4) = s.flash_step(run, 3);
    assert_eq!(a4, FlashAction::Finish { total: 10_009 });
    assert!(!s.is_flash_loan_active(7, ASSET));
    assert_eq!(s.reserves.get(&ASSET), Some(9));
    assert_eq!(s.flash_step(run, 3).1, FlashAction::Idle);

    let run = s.open_flash_run(7, ASSET, 10_000, 8, 10_000_000, 5, 3).unwrap();
    let (run, _) = s.flash_step(run, 3);
    let (run, _) = s.flash_step(run, 3);
    let (run, a) = s.flash_step(run, 4);
    assert_eq!(a, FlashAction::Fail { error: FlashLoanError::Expired });
    assert_eq!(run.phase, FlashPhase::Done);
}

#[test]
fn flash_loan_refusals() {
    let mut s = FlashLoanState::new();
    assert_eq!(s.begin_flash_loan(7, ASSET, 99, 8, 10_000_000, 5, 3), Err(FlashLoanError::InvalidAmount));
    assert_eq!(s.begin_flash_loan(7, ASSET, 10_000, 8, 9_999, 5, 3), Err(FlashLoanError::InsufficientLiquidity));
    assert_eq!(s.begin_flash_loan(7, ASSET, 10_000, 8, 15_000, 5, 3), Err(FlashLoanError::ExceedsLiquidityCap));
    assert_eq!(s.set_flash_loan_fee(Some(1), 2, 5), Err(FlashLoanError::InvalidCallback));
    assert_eq!(s.set_flash_loan_fee(Some(1), 1, 10_001), Err(FlashLoanError::InvalidAmount));
    s.set_flash_loan_fee(Some(1), 1, 100).unwrap();
    assert_eq!(s.config.unwrap().fee_bps, 100);
    assert_eq!(s.config.unwrap().min_amount, 100);
    s.paused = true;
    assert_eq!(s.begin_flash_loan(7, ASSET, 10_000, 8, 10_000_000, 5, 3), Err(FlashLoanError::FlashLoanPaused));
}

#[test]
fn oracle_source_divergence_alert_pause_and_recovery() {
    let cfg = get_default_config();
    let (a, b, c) = (2u64, 3u64, 4u64);
    let mut o = AssetOracle::new(ASSET);
    o.set_oracle_sources(Some(ADMIN), ADMIN, vec![a, b, c]).unwrap();
    o.update_price_feed(false, Some(ADMIN), &cfg, ADMIN, 1_000, 7, a, 10).unwrap();
    o.update_price_feed(false, Some(ADMIN), &cfg, ADMIN, 1_030, 7, b, 15).unwrap();
    assert_eq!(o.get_oracle_incident_report().unwrap().kind, OracleIncidentKind::SourceDeviationAlert);
    o.update_price_feed(false, Some(ADMIN), &cfg, ADMIN, 1_050, 7, b, 20).unwrap();
    o.update_price_feed(false, Some(ADMIN), &cfg, ADMIN, 1_102, 7, c, 30).unwrap();
    let report = o.get_oracle_incident_report().unwrap();
    assert_eq!(report.kind, OracleIncidentKind::SourceDeviationPause);
    assert_eq!(report.observed_bps, 1_020);
    assert_eq!(o.get_price(&cfg, 31), Err(OracleError::CircuitBreakerOpen));
    for t in [700u64, 710, 720] {
        o.update_price_feed(false, Some(ADMIN), &cfg, ADMIN, 1_050, 7, c, t).unwrap();
    }
    assert_eq!(o.get_oracle_incident_report().unwrap().kind, OracleIncidentKind::PriceStabilized);
    assert!(!o.is_breaker_open(720));
    assert_eq!(o.get_price(&cfg, 720), Ok(1_050));
}

#[test]
fn oracle_volatility_guard_pauses_reads() {
    let cfg = get_default_config();
    let mut o = AssetOracle::new(ASSET);
    o.set_fallback_oracle(Some(ADMIN), ADMIN, 9, 42).unwrap();
    o.update_price_feed(false, Some(ADMIN), &cfg, ADMIN, 1_000, 7, ORACLE_A, 10).unwrap();
    assert_eq!(o.update_price_feed(false, Some(ADMIN), &cfg, 9, 2_000, 7, 9, 20), Ok(2_000));
    assert_eq!(o.get_oracle_incident_report().unwrap().kind, OracleIncidentKind::VolatilityPause);
    assert!(o.is_breaker_open(20));
    assert_eq!(o.get_liquidation_price(&cfg, 20), Err(OracleError::CircuitBreakerOpen));
}

#[test]
fn oracle_liquidation_price_prefers_close_twap() {
    let cfg = get_default_config();
    let mut o = AssetOracle::new(ASSET);
    o.update_price_feed(false, Some(ADMIN), &cfg, ADMIN, 1_000, 7, ORACLE_A, 10).unwrap();
    assert_eq!(o.get_liquidation_price(&cfg, 100), Ok(1_000));
    assert_eq!(o.get_liquidation_price(&cfg, 400), Ok(1_000));
    assert_eq!(o.get_twap_view(&cfg, 400), Ok(1_000));
}
