use stellarlend::credit_oracle::CreditOracle;
use stellarlend::lending_core::LendingCoreContract;
use stellarlend::liquidation_strategy::{calculate_dutch_auction, LiquidationStrategyContract, StrategyType};
use stellarlend::migration::{preview_migration, MigrationError, MigrationHub, MigrationStatus, ProtocolType};
use stellarlend::oracle_hub::OracleHubContract;
use stellarlend::parameter_store::{ParameterStoreContract, ParameterType};
use stellarlend::pool_factory::PoolFactory;
use stellarlend::referral::{ReferralConfig, ReferralError, ReferralProgram};
use stellarlend::sns::{SNSError, SNSIntegration};
use stellarlend::swap_router::{SwapRouterContract, SwapRouterError, SwapRoute, AMMProtocol};
use stellarlend::types::{CommonError, Position};

#[test]
fn test_initialize() {
    let admin = 1;
    let mut core = LendingCoreContract::new();
    let result = core.initialize(admin, 1_000_000_000);
    assert!(result.is_ok());
}

#[test]
fn test_get_admin() {
    let admin = 1;
    let mut core = LendingCoreContract::new();
    core.initialize(admin, 1_000_000_000).unwrap();
    let got = core.get_admin();
    assert_eq!(got, Some(admin));
}

#[test]
fn lending_core_initializes_once_and_stores_positions() {
    let mut core = LendingCoreContract::new();
    core.initialize(1, 10).unwrap();
    assert_eq!(core.initialize(2, 10), Err(CommonError::Unauthorized));
    assert_eq!(core.get_admin(), Some(1));
    let p = Position { collateral_amount: 5, debt_amount: 2, last_updated: 9 };
    core.update_position(4, p).unwrap();
    assert_eq!(core.get_position(4), Some(p));
    assert_eq!(core.get_position(5), None);
}

#[test]
fn lib_test_initialize() {
    let admin = 3;
    let factory = PoolFactory::initialize(admin);
    assert_eq!(factory.admin, Some(admin));
}

#[test]
fn test_create_pool() {
    let mut factory = PoolFactory::initialize(3);
    let _pool = factory.create_pool(10, 11, 5000, 7500, 12, 99, 100, 0);
    let count = factory.get_pool_count();
    assert_eq!(count, 1);
}

#[test]
fn pool_factory_update_and_lookup() {
    let mut factory = PoolFactory::initialize(3);
    factory.create_pool(10, 11, 5000, 7500, 12, 99, 100, 7);
    let pool = factory.get_pool_by_index(0).unwrap();
    assert_eq!(pool.address, 99);
    assert_eq!(pool.created_at, 7);
    let mut cfg = pool.config;
    cfg.ltv_bps = 6000;
    factory.update_pool_config(0, cfg);
    assert_eq!(factory.get_pool_by_index(0).unwrap().config.ltv_bps, 6000);
    factory.update_pool_config(5, cfg);
    assert_eq!(factory.get_pools().len(), 1);
    assert!(factory.get_pool_by_index(1).is_none());
}

#[test]
fn strategy_test_initialize() {
    let c = LiquidationStrategyContract::initialize(1, 2);
    assert_eq!(c.governance, 1);
    assert_eq!(c.strategy_count, 0);
}

#[test]
fn strategy_discounts_exact_values() {
    let mut c = LiquidationStrategyContract::initialize(1, 2);
    let fixed = c.register_strategy(50, StrategyType::FixedDiscount, vec![], 0);
    let dutch = c.register_strategy(51, StrategyType::DutchAuction, vec![1, 2], 0);
    let hybrid = c.register_strategy(52, StrategyType::Hybrid, vec![], 0);
    assert_eq!((fixed, dutch, hybrid), (1, 2, 3));
    assert_eq!(c.calculate_discount(fixed, 0, 10_000, 0).calculated_discount, 1_000);
    assert_eq!(c.calculate_discount(dutch, 0, 10_000, 7_200).calculated_discount, 1_200);
    assert_eq!(c.calculate_discount(hybrid, 0, 10_000, 14_400).calculated_discount, 1_200);
    assert_eq!(calculate_dutch_auction(10_000, 3_599).calculated_discount, 1_000);
    c.disable_strategy(dutch);
    assert!(!c.get_strategy(dutch).enabled);
    c.change_pool_strategy(51, fixed);
    assert_eq!(c.get_pool_strategy(51), Some(fixed));
}

#[test]
fn oracle_hub_test_initialize() {
    let hub = OracleHubContract::initialize(1, 2);
    assert_eq!(hub.governance, 1);
}

#[test]
fn oracle_hub_serves_fresh_prices_only() {
    let mut hub = OracleHubContract::initialize(1, 2);
    hub.register_feed(7, 8, 1, 60);
    hub.report_price(7, 500, 90, 1_000);
    assert_eq!(hub.get_price(7, 1_060).unwrap().price, 500);
    assert_eq!(hub.get_price(7, 1_061), None);
    assert_eq!(hub.check_feed_health(7, 1_061).status, 1);
    assert_eq!(hub.check_feed_health(7, 1_000).status, 0);
    hub.disable_feed(7);
    assert_eq!(hub.check_feed_health(7, 1_000).status, 2);
    assert_eq!(hub.check_feed_health(8, 1_000).status, 2);
}

#[test]
fn parameter_store_test_initialize() {
    let store = ParameterStoreContract::initialize(1, 2);
    assert_eq!(store.governance, 1);
    assert_eq!(store.counter, 0);
}

#[test]
fn parameter_change_after_timelock() {
    let mut store = ParameterStoreContract::initialize(1, 2);
    let id = store.propose_change(ParameterType::LTV, 7_000, 48 * 3600, 100);
    assert_eq!(id, 1);
    assert_eq!(store.get_parameter(ParameterType::LTV), 0);
    store.accept_proposal(id, 100 + 48 * 3600);
    assert_eq!(store.get_parameter(ParameterType::LTV), 7_000);
    let history = store.get_change_history(ParameterType::LTV);
    assert_eq!(history.len(), 1);
    assert_eq!(history[0].old_value, 0);
    assert_eq!(history[0].new_value, 7_000);
    assert!(store.get_proposal(id).accepted);
    let id2 = store.propose_change(ParameterType::ReserveFactor, 5, 24 * 3600, 0);
    store.reject_proposal(id2);
    assert!(store.get_proposal(id2).rejected);
    assert!(store.get_change_history(ParameterType::ReserveFactor).is_empty());
}

#[test]
fn credit_scores_by_tier() {
    let mut oracle = CreditOracle::initialize(1, 2);
    oracle.update_credit_score(10, 700, 10_000, 1_000);
    assert_eq!(oracle.get_borrow_limit(10, 1_000), Some(5_000));
    oracle.update_credit_score(10, 900, 10_000, 1_000);
    assert_eq!(oracle.get_borrow_limit(10, 1_000), Some(10_000));
    assert_eq!(oracle.get_all_scores().len(), 1);
    assert!(oracle.is_score_fresh(10, 1_000 + 2_592_000));
    assert!(!oracle.is_score_fresh(10, 1_000 + 2_592_001));
    oracle.dispute_score(10);
    assert_eq!(oracle.get_credit_score(10, 1_000).unwrap().status, 1);
    oracle.resolve_dispute(10, 300, 2_000);
    let s = oracle.get_credit_score(10, 2_000).unwrap();
    assert_eq!((s.score, s.status, s.borrow_limit), (300, 0, 0));
    assert_eq!(oracle.get_credit_score(11, 2_000), None);
}

#[test]
fn migration_records_and_rollback() {
    let mut hub = MigrationHub::new();
    assert_eq!(hub.check_migration(0), Err(MigrationError::NotInitialized));
    hub.initialize(1, 2, 3, 10, 1_000).unwrap();
    assert_eq!(hub.initialize(1, 2, 3, 10, 1_000), Err(MigrationError::AlreadyInitialized));
    assert!(hub.check_migration(1_000).is_ok());
    assert_eq!(hub.check_migration(1_001), Err(MigrationError::DeadlineExceeded));
    let id = hub.record_migration(5, ProtocolType::AaveMock, 6, 7, 500, 10, Ok(())).unwrap();
    assert_eq!(id, 0);
    assert_eq!(hub.verify_migration(id), Ok(true));
    let failed = hub.record_migration(5, ProtocolType::StellarOther, 6, 7, 500, 11, Err(MigrationError::BridgeError));
    assert_eq!(failed, Err(MigrationError::BridgeError));
    assert_eq!(hub.get_migration(1).unwrap().status, MigrationStatus::Failed);
    let a = hub.get_analytics();
    assert_eq!((a.successful_migrations, a.failed_migrations, a.total_migrated_value), (1, 1, 500));
    hub.emergency_rollback(id, "pool issue".to_string(), 20).unwrap();
    assert_eq!(hub.verify_migration(id), Ok(false));
    assert_eq!(hub.emergency_rollback(id, "again".to_string(), 21), Err(MigrationError::RollbackFailed));
    assert_eq!(hub.verify_migration(9), Err(MigrationError::MigrationFailed));
    assert_eq!(hub.migrate_partial(5, 1, 2, 7, 0, 0), Err(MigrationError::InvalidPercentage));
    assert_eq!(hub.migrate_partial(5, 1, 2, 7, 5_000, 0), Ok(2));
}

#[test]
fn migration_zero_deadline_is_expired() {
    let mut hub = MigrationHub::new();
    hub.initialize(1, 2, 3, 10, 0).unwrap();
    assert_eq!(hub.check_migration(0), Err(MigrationError::DeadlineExceeded));
}

#[test]
fn migration_preview_values() {
    let p = preview_migration(1, 2, 3, 4, 1_000_000).unwrap();
    assert_eq!(p.interest_impact, 1_000);
    assert_eq!(p.expected_output, 1_000_000 - 100_000);
    assert_eq!(p.estimated_gas, 50_000);
    assert_eq!(p.estimated_slippage_bps, 25);
}

#[test]
fn sns_register_resolve_and_expire() {
    let mut sns = SNSIntegration::new();
    assert_eq!(sns.resolve_name(&"alice".to_string(), 0), Err(SNSError::NotInitialized));
    sns.initialize(1, 100, 1).unwrap();
    assert_eq!(sns.register_name(String::new(), 9, 0), Err(SNSError::InvalidName));
    sns.register_name("alice".to_string(), 9, 1_000).unwrap();
    assert_eq!(sns.resolve_name(&"alice".to_string(), 1_000), Ok(9));
    assert_eq!(sns.get_analytics().unwrap().total_resolutions, 1);
    // a name never registered does not resolve, whatever is cached for others
    assert_eq!(sns.resolve_name(&"bob".to_string(), 1_050), Err(SNSError::NameNotFound));
    assert_eq!(sns.resolve_name(&"alice".to_string(), 1_050), Ok(9));
    assert_eq!(sns.get_analytics().unwrap().cache_hit_rate, 1);
    sns.register_name("bob".to_string(), 22, 1_060).unwrap();
    assert_eq!(sns.resolve_name(&"bob".to_string(), 1_060), Ok(22));
    assert_eq!(sns.resolve_name(&"alice".to_string(), 1_060), Ok(9));
    assert_eq!(sns.is_name_expired(&"alice".to_string(), 1_000 + 86_400), Ok(false));
    assert_eq!(sns.is_name_expired(&"alice".to_string(), 1_000 + 86_401), Ok(true));
    assert_eq!(sns.is_name_expired(&"carol".to_string(), 0), Err(SNSError::NameNotFound));
    assert_eq!(sns.resolve_name(&"alice".to_string(), 1_000 + 86_401), Err(SNSError::NameExpired));
    assert_eq!(sns.renew_name(&"carol".to_string(), 1_000 + 86_401), Err(SNSError::NameNotFound));
    sns.renew_name(&"alice".to_string(), 1_000 + 86_401).unwrap();
    let batch = sns.resolve_names_batch(&vec!["alice".to_string(), "bob".to_string(), "carol".to_string()], 1_000 + 86_402);
    assert_eq!(batch, vec![Ok(9), Ok(22), Err(SNSError::NameNotFound)]);
}

#[test]
fn sns_registering_one_name_keeps_another() {
    let mut sns = SNSIntegration::new();
    sns.initialize(1, 100, 1).unwrap();
    sns.register_name("alice".to_string(), 11, 0).unwrap();
    sns.register_name("bob".to_string(), 22, 0).unwrap();
    assert_eq!(sns.resolve_name(&"alice".to_string(), 5), Ok(11));
    assert_eq!(sns.resolve_name(&"bob".to_string(), 5), Ok(22));
    sns.register_name("alice".to_string(), 33, 6).unwrap();
    assert_eq!(sns.resolve_name(&"alice".to_string(), 7), Ok(33));
    assert_eq!(sns.resolve_name(&"bob".to_string(), 7), Ok(22));
    assert_eq!(sns.get_analytics().unwrap().total_names_registered, 3);
}

fn referral_config() -> ReferralConfig {
    ReferralConfig {
        admin: 1,
        fee_share_bps: 1_000,
        l2_fee_share_bps: 500,
        maturity_ledgers: 10,
        min_deposit_to_qualify: 100,
        tier_1_threshold: 1,
        tier_1_bonus_bps: 100,
        tier_2_threshold: 5,
        tier_2_bonus_bps: 200,
    }
}

#[test]
fn referral_accrue_and_claim() {
    let mut p = ReferralProgram::new();
    p.initialize(referral_config()).unwrap();
    assert_eq!(p.register_referral(5, 5, 1), Err(ReferralError::SelfReferral));
    // 6 was referred by 8, then 5 and 7 are referred by 6
    p.register_referral(6, 8, 1).unwrap();
    p.register_referral(5, 6, 1).unwrap();
    assert_eq!(p.register_referral(5, 7, 2), Err(ReferralError::AlreadyRegistered));
    p.register_referral(7, 6, 2).unwrap();
    assert_eq!(p.get_referrer_stats(6).total_referrals, 2);
    let up = p.get_referrer_stats(8);
    assert_eq!((up.total_referrals, up.l2_referrals), (1, 2));
    assert_eq!(p.accrue_fee(9, 10_000), Err(ReferralError::InvalidReferrer));
    p.accrue_fee(5, 10_000).unwrap();
    let s = p.get_referrer_stats(6);
    assert_eq!((s.total_earned, s.claimable, s.l2_earned), (1_000, 1_000, 0));
    let u = p.get_referrer_stats(8);
    assert_eq!((u.total_earned, u.claimable, u.l2_earned), (500, 500, 500));
    assert_eq!(p.claim(6, 3), Ok(1_000));
    assert_eq!(p.claim(6, 4), Err(ReferralError::NothingToClaim));
    p.accrue_fee(5, 10_000).unwrap();
    assert_eq!(p.claim(6, 12), Err(ReferralError::MaturityNotReached));
    assert_eq!(p.claim(6, 13), Ok(1_000));
    assert_eq!(p.claim(8, 1), Ok(1_000));
    let r = p.get_referral(5).unwrap();
    assert_eq!((r.referrer, r.total_fees_generated, r.referrer_earned), (6, 20_000, 2_000));
    assert!(p.get_referral(8).is_none());
    let t = p.get_tier_info(6).unwrap();
    assert_eq!((t.tier_level, t.bonus_bps, t.total_bonus_earned), (1, 100, 20));
    assert_eq!(p.get_dashboard_metrics(6).unwrap().0.total_claimed, 2_000);
    assert_eq!(p.validate_referrer_eligibility(6, 99), Ok(false));
}

#[test]
fn swap_route_through_phoenix() {
    let routes = vec![
        SwapRoute { protocol: AMMProtocol::Phoenix, pool_address: 1, asset_in: 2, asset_out: 3 },
        SwapRoute { protocol: AMMProtocol::Phoenix, pool_address: 4, asset_in: 3, asset_out: 5 },
    ];
    let mut p = SwapRouterContract::start_swap(10_000, &routes).unwrap();
    p = SwapRouterContract::phoenix_hop(p, &routes).unwrap();
    assert_eq!(p.current_amount, 9_970);
    p = SwapRouterContract::phoenix_hop(p, &routes).unwrap();
    assert_eq!(p.current_amount, 9_941);
    assert_eq!(SwapRouterContract::finish_swap(p, 9_942), Err(SwapRouterError::SlippageToleranceExceeded));
    assert_eq!(SwapRouterContract::finish_swap(p, 9_941), Ok(9_941));
    assert_eq!(SwapRouterContract::start_swap(1, &vec![]), Err(SwapRouterError::NoSwapRoutes));
    assert_eq!(SwapRouterContract::record_hop(p, Err("down".to_string())), Err(SwapRouterError::SwapFailed));
}
