use stellarlend::errors::ProtocolError;
use stellarlend::interest_rate::{
    borrow_rate_bps, default_config, get_config, set_default_if_missing, supply_rate_bps, update_config,
    utilization_bps, InterestRateConfigUpdate, InterestRateError,
};
use stellarlend::margin::{
    check_cross_margin_health, check_isolated_position_health, liquidate_cross_margin_account,
    liquidate_isolated_position, MarginAccount, MarginCallLevel, MarginMode, Position,
};
use stellarlend::meta::{get_cap_config, get_cap_utilization, record_usage, CapConfig, MetaTxError};
use stellarlend::oracle::{get_default_config, get_oracle_config, AssetOracle};
use stellarlend::oracle_hub::OracleHubContract;
use stellarlend::oracle_math::{compute_twap, OracleError, PriceObservation};
use stellarlend::parameter_store::{min_timelock, ParameterType};
use stellarlend::risk::RiskManager;
use stellarlend::vault::{
    cleanup_expired_deposit_position, cleanup_expired_withdraw_position, get_user_collateral,
    initialize_withdraw_settings, DepositCollateral, VaultSettings, WithdrawPosition,
};
use stellarlend::wallet::{InstitutionalWallet, WalletError};

fn no_update() -> InterestRateConfigUpdate {
    InterestRateConfigUpdate {
        base_rate_bps: None,
        kink_utilization_bps: None,
        slope_bps: None,
        jump_slope_bps: None,
        rate_floor_bps: None,
        rate_ceiling_bps: None,
        spread_bps: None,
    }
}

#[test]
fn kinked_rates_below_and_above_kink() {
    let cfg = default_config(0);
    assert_eq!(utilization_bps(10_000, 5_000), Ok(5_000));
    assert_eq!(utilization_bps(10_000, 20_000), Ok(10_000));
    assert_eq!(utilization_bps(0, 5_000), Ok(0));
    assert_eq!(utilization_bps(1, i128::MAX), Err(InterestRateError::Overflow));
    // 1% + 50% * 20% / 80%
    assert_eq!(borrow_rate_bps(&cfg, 10_000, 5_000), Ok(1_350));
    // 1% + 20% + (90% - 80%) * 100% / 20%
    assert_eq!(borrow_rate_bps(&cfg, 10_000, 9_000), Ok(7_100));
    assert_eq!(supply_rate_bps(&cfg, 10_000, 5_000), Ok(1_150));
    assert_eq!(supply_rate_bps(&cfg, 10_000, 9_000), Ok(6_900));
    // the supply rate never drops below the floor
    assert_eq!(supply_rate_bps(&cfg, 10_000, 0), Ok(0));
}

#[test]
fn rate_config_defaults_and_updates() {
    let cfg = default_config(5);
    assert_eq!(get_config(None, 5), cfg);
    assert_eq!(set_default_if_missing(Some(cfg.clone()), 9), None);
    assert_eq!(set_default_if_missing(None, 9), Some(default_config(9)));
    assert_eq!(update_config(2, Some(1), cfg.clone(), no_update(), 7), Err(InterestRateError::Unauthorized));
    let bad = InterestRateConfigUpdate { rate_floor_bps: Some(6_000), rate_ceiling_bps: Some(5_000), ..no_update() };
    assert_eq!(update_config(1, Some(1), cfg.clone(), bad, 7), Err(InterestRateError::InvalidParameter));
    let kink = InterestRateConfigUpdate { kink_utilization_bps: Some(10_000), ..no_update() };
    assert_eq!(update_config(1, Some(1), cfg.clone(), kink, 7), Err(InterestRateError::InvalidParameter));
    let up = InterestRateConfigUpdate { base_rate_bps: Some(300), ..no_update() };
    let (prev, next) = update_config(1, Some(1), cfg.clone(), up, 7).unwrap();
    assert_eq!(prev, cfg);
    assert_eq!(next.base_rate_bps, 300);
    assert_eq!(next.slope_bps, cfg.slope_bps);
    assert_eq!(next.last_update, 7);
}

fn account(mode: MarginMode, collateral: i128, debt: i128) -> MarginAccount {
    MarginAccount {
        owner: 1,
        mode,
        positions: vec![
            Position { asset: 10, amount: 100, debt: 95, entry_price: 10_000 },
            Position { asset: 11, amount: 100, debt: 10, entry_price: 10_000 },
        ],
        total_collateral_value: collateral,
        total_debt_value: debt,
    }
}

#[test]
fn cross_margin_liquidation() {
    let mut healthy = account(MarginMode::Cross, 1_000, 700);
    assert_eq!(check_cross_margin_health(&healthy), MarginCallLevel::Warning);
    assert_eq!(liquidate_cross_margin_account(&mut healthy), Err("Account is healthy, cannot liquidate"));
    assert_eq!(healthy.positions.len(), 2);
    let mut isolated = account(MarginMode::Isolated, 1_000, 900);
    assert_eq!(liquidate_cross_margin_account(&mut isolated), Err("Account is not in cross margin mode"));
    let mut bad = account(MarginMode::Cross, 1_000, 850);
    assert_eq!(check_cross_margin_health(&bad), MarginCallLevel::Liquidation);
    assert_eq!(liquidate_cross_margin_account(&mut bad), Ok(()));
    assert!(bad.positions.is_empty());
    assert_eq!((bad.total_collateral_value, bad.total_debt_value), (0, 0));
}

#[test]
fn isolated_margin_liquidation() {
    let mut acc = account(MarginMode::Isolated, 0, 0);
    assert_eq!(check_isolated_position_health(&acc.positions[0], 10_000), MarginCallLevel::ForcedClose);
    assert_eq!(check_isolated_position_health(&acc.positions[1], 10_000), MarginCallLevel::Safe);
    assert_eq!(liquidate_isolated_position(&mut acc, 2, 10_000), Err("Invalid position index"));
    assert_eq!(liquidate_isolated_position(&mut acc, 1, 10_000), Err("Position is healthy, cannot liquidate"));
    assert_eq!(liquidate_isolated_position(&mut acc, 0, 10_000), Ok(()));
    assert_eq!(acc.positions.len(), 1);
    assert_eq!(acc.positions[0].asset, 11);
    let mut cross = account(MarginMode::Cross, 0, 0);
    assert_eq!(liquidate_isolated_position(&mut cross, 0, 10_000), Err("Account is not in isolated mode"));
}

#[test]
fn cap_usage_reports() {
    let caps = get_cap_config(None);
    assert_eq!(caps.pool_supply_cap, i128::MAX);
    assert_eq!(caps.user_supply_cap_bps, 10_000);
    let stored = CapConfig { user_supply_cap_bps: 1, user_borrow_cap_bps: 2, pool_supply_cap: 3, pool_borrow_cap: 4 };
    assert_eq!(get_cap_config(Some(stored.clone())), stored);
    assert_eq!(record_usage(100, 10, 5), Ok((105, 15)));
    assert_eq!(record_usage(i128::MAX, 10, 5), Err(MetaTxError::ArithmeticOverflow));
    let u = get_cap_utilization(7, 8, &stored, 1, 2, 3, 4);
    assert_eq!((u.asset, u.user, u.user_supplied, u.pool_borrowed), (7, 8, 1, 4));
    assert_eq!((u.user_supply_cap_bps, u.pool_borrow_cap), (1, 4));
}

#[test]
fn oracle_config_and_primary_source() {
    let cfg = get_default_config();
    assert_eq!(get_oracle_config(None), cfg);
    let mut o = AssetOracle::new(100);
    assert_eq!(o.set_primary_oracle(Some(1), 2, 5), Err(OracleError::Unauthorized));
    assert_eq!(o.primary_oracle, None);
    assert_eq!(o.set_primary_oracle(Some(1), 1, 5), Ok(()));
    assert_eq!(o.primary_oracle, Some(5));
}

#[test]
fn hub_feed_update_keeps_oracle() {
    let mut hub = OracleHubContract::initialize(1, 2);
    hub.register_feed(100, 55, 1, 60);
    hub.update_feed(100, 3, 120);
    let f = hub.feeds.get(&100).unwrap();
    assert_eq!((f.oracle_address, f.priority, f.stale_threshold_seconds, f.enabled), (55, 3, 120, true));
    assert_eq!(hub.feed_count, 1);
}

#[test]
fn timelocks_and_hints() {
    assert_eq!(min_timelock(ParameterType::LTV), 172_800);
    assert_eq!(min_timelock(ParameterType::LiquidationThreshold), 172_800);
    assert_eq!(min_timelock(ParameterType::ReserveFactor), 86_400);
    assert_eq!(ProtocolError::DeadlineExpired.handling_hint(), "Submit a fresh transaction with a new deadline.");
    assert_eq!(RiskManager::calculate_max_liquidatable(1_000, 5_000), 500);
}

#[test]
fn vault_cleanup_and_settings() {
    let live = DepositCollateral { amount: 50, asset: 5, last_deposit_time: 1, expires_at: 100 };
    assert_eq!(get_user_collateral(Some(live.clone()), 5, 99), live);
    assert_eq!(get_user_collateral(Some(live.clone()), 5, 100).amount, 0);
    assert_eq!(cleanup_expired_deposit_position(Some(live.clone()), 5, 99), None);
    assert_eq!(
        cleanup_expired_deposit_position(Some(live), 5, 100),
        Some(DepositCollateral { amount: 0, asset: 5, last_deposit_time: 100, expires_at: 0 })
    );
    let w = WithdrawPosition { amount: 3, last_withdraw_time: 1, expires_at: 10 };
    assert_eq!(cleanup_expired_withdraw_position(Some(w.clone()), 9), None);
    assert_eq!(
        cleanup_expired_withdraw_position(Some(w), 10),
        Some(WithdrawPosition { amount: 0, last_withdraw_time: 10, expires_at: 0 })
    );
    assert_eq!(cleanup_expired_withdraw_position(None, 10), None);
    let mut s = VaultSettings { deposit_cap: Some(1), min_deposit_amount: None, min_withdrawal: None, withdraw_paused: false };
    assert!(initialize_withdraw_settings(&mut s, 25).is_ok());
    assert_eq!(s.min_withdrawal, Some(25));
    assert_eq!(s.deposit_cap, Some(1));
}

#[test]
fn wallet_admin_changes_and_rotation() {
    let mut w = InstitutionalWallet::new();
    w.initialize(vec![1, 2], 2, 0).unwrap();
    assert_eq!(w.add_admin(2), Err(WalletError::InvalidAdmins));
    assert_eq!(w.add_admin(3), Ok(()));
    assert_eq!(w.get_admins(), vec![1, 2, 3]);
    assert_eq!(w.set_threshold(3), Ok(()));
    assert_eq!(w.get_threshold(), 3);
    w.propose_guardians(1, vec![10, 11], 2, 0).unwrap();
    w.accept_guardian(10, 0).unwrap();
    w.accept_guardian(11, 0).unwrap();
    assert_eq!(w.rotate_guardians(12, vec![20], 1, 5), Err(WalletError::Unauthorized));
    assert_eq!(w.rotate_guardians(10, vec![20], 2, 5), Err(WalletError::InvalidThreshold));
    assert_eq!(w.rotate_guardians(10, vec![20], 1, 5), Ok(()));
    assert_eq!(w.get_guardians(), vec![10, 11]);
    assert_eq!(w.rotate_guardians(10, vec![20], 1, 5), Err(WalletError::AlreadyVoted));
    assert_eq!(w.rotate_guardians(11, vec![20], 1, 6), Ok(()));
    assert_eq!(w.get_guardians(), vec![20]);
    assert_eq!(w.get_guardian_threshold(), 1);
    assert!(w.get_guardian_approvals().is_empty());
    assert_eq!(w.get_admins(), vec![1, 2, 3]);
}

#[test]
fn handling_hints_are_distinct_and_non_empty() {
    let all = [
        ProtocolError::Unauthorized,
        ProtocolError::AlreadyInitialized,
        ProtocolError::NotInitialized,
        ProtocolError::InvalidAddress,
        ProtocolError::InvalidAmount,
        ProtocolError::InvalidConfiguration,
        ProtocolError::InvalidState,
        ProtocolError::InsufficientBalance,
        ProtocolError::InsufficientCollateral,
        ProtocolError::LimitExceeded,
        ProtocolError::ReentrancyDetected,
        ProtocolError::CrossContractFailure,
        ProtocolError::SerializationFailure,
        ProtocolError::Overflow,
        ProtocolError::Underflow,
        ProtocolError::UnsupportedOperation,
        ProtocolError::NotFound,
        ProtocolError::DeadlineExpired,
        ProtocolError::DuplicateRequest,
        ProtocolError::Unknown,
    ];
    for (i, a) in all.iter().enumerate() {
        assert!(!a.handling_hint().is_empty());
        for b in all.iter().skip(i + 1) {
            assert_ne!(a.handling_hint(), b.handling_hint());
        }
    }
    assert_eq!(ProtocolError::Unknown.handling_hint(), "Log the numeric code and fail closed without panicking.");
}

#[test]
fn twap_stays_within_observed_prices() {
    let history = vec![
        PriceObservation { price: 90, timestamp: 10 },
        PriceObservation { price: 110, timestamp: 40 },
        PriceObservation { price: 95, timestamp: 70 },
    ];
    let v = compute_twap(100, &history, 100, 100).unwrap();
    assert!((90..=110).contains(&v));
    let negative = vec![
        PriceObservation { price: -7, timestamp: 10 },
        PriceObservation { price: -3, timestamp: 60 },
    ];
    let w = compute_twap(100, &negative, -5, 100).unwrap();
    assert!((-7..=-3).contains(&w));
}

#[test]
fn wallet_remove_admin_shortens_by_one() {
    let mut w = InstitutionalWallet::new();
    w.initialize(vec![1, 2, 3], 2, 0).unwrap();
    assert_eq!(w.remove_admin(2), Ok(()));
    assert_eq!(w.get_admins(), vec![1, 3]);
    assert_eq!(w.remove_admin(1), Err(WalletError::InvalidThreshold));
    assert_eq!(w.remove_admin(9), Err(WalletError::InvalidAdmins));
    assert_eq!(w.get_admins(), vec![1, 3]);
    assert_eq!(w.get_threshold(), 2);
}
