use stellarlend::liquidation::{
    abort_if_unprofitable, health_factor_bps, is_liquidatable, is_oracle_fresh, max_repay_value, plan_liquidation,
    seize_value, LiquidationError, PositionSnapshot,
};
use stellarlend::risk_dashboard::{
    calculate_metric_trend, calculate_pool_health, calculate_protocol_safety_score, check_oracle_health,
    determine_risk_level, get_liquidation_heatmap, RiskLevel,
};

fn snap() -> PositionSnapshot {
    PositionSnapshot {
        collateral_value: 1_000,
        debt_value: 1_000,
        liquidation_threshold_bps: 8_000,
        close_factor_bps: 5_000,
        liquidation_incentive_bps: 1_000,
        oracle_timestamp: 100,
    }
}

#[test]
fn healthy_position_rejected() {
    let s = PositionSnapshot {
        collateral_value: 2_000,
        debt_value: 1_000,
        ..snap()
    };
    let res = plan_liquidation(&s, 100, 100, 60, 0);
    assert_eq!(res, Err(LiquidationError::PositionHealthy));
}

#[test]
fn invalid_amount_is_cheapest_check() {
    let res = plan_liquidation(&snap(), 0, 1_000_000, 60, 0);
    assert_eq!(res, Err(LiquidationError::InvalidAmount));
}

#[test]
fn stale_oracle_rejected() {
    let res = plan_liquidation(&snap(), 100, 1_000, 60, 0);
    assert_eq!(res, Err(LiquidationError::StaleOracle));
}

#[test]
fn unprofitable_rejected() {
    let res = plan_liquidation(&snap(), 100, 150, 60, 50);
    assert_eq!(res, Err(LiquidationError::Unprofitable));
}

#[test]
fn happy_path_clamps_to_close_factor() {
    let plan = plan_liquidation(&snap(), 900, 150, 60, 10).unwrap();
    assert_eq!(plan.repay_value, 500);
    assert_eq!(plan.seize_value, 550);
    assert_eq!(plan.bonus_value, 50);
}

#[test]
fn no_debt_is_healthy() {
    assert_eq!(health_factor_bps(1_000, 0, 8_000).unwrap(), i128::MAX);
    assert!(!is_liquidatable(i128::MAX));
}

#[test]
fn oracle_freshness_boundary() {
    assert!(is_oracle_fresh(100, 160, 60));
    assert!(!is_oracle_fresh(100, 161, 60));
}

#[test]
fn liquidation_helpers_exact_values() {
    assert_eq!(health_factor_bps(1_000, 1_000, 8_000).unwrap(), 8_000);
    assert!(is_liquidatable(9_999));
    assert!(!is_liquidatable(10_000));
    assert_eq!(max_repay_value(1_000, 5_000).unwrap(), 500);
    assert_eq!(seize_value(500, 1_000).unwrap(), 550);
    assert_eq!(abort_if_unprofitable(10, 10), Err(LiquidationError::Unprofitable));
    assert_eq!(abort_if_unprofitable(11, 10), Ok(()));
    assert_eq!(health_factor_bps(i128::MAX, 1, 10_000), Err(LiquidationError::Overflow));
}

#[test]
fn test_determine_risk_level() {
    assert_eq!(determine_risk_level(20_000), RiskLevel::Safe);
    assert_eq!(determine_risk_level(13_000), RiskLevel::Warning);
    assert_eq!(determine_risk_level(11_000), RiskLevel::Danger);
    assert_eq!(determine_risk_level(9_000), RiskLevel::Critical);
}

#[test]
fn test_pool_health_calculation() {
    let pool_id = 7;
    let health = calculate_pool_health(pool_id, 1_000_000, 800_000);
    assert_eq!(health.utilization_rate, 8_000);
    assert_eq!(health.available_liquidity, 200_000);
}

#[test]
fn test_protocol_safety_score() {
    let score = calculate_protocol_safety_score(8_000, 9_000, 8_500, 7_000, 0);
    assert!(score.overall_score > 7_000);
    assert!(score.overall_score < 9_000);
}

#[test]
fn test_metric_trend() {
    let name = "utilization".to_string();
    let trend = calculate_metric_trend(name, 8_000, 7_000, 0);
    assert_eq!(trend.change_percentage, 1_428);
}

#[test]
fn oracle_health_staleness() {
    let fresh = check_oracle_health(1, 100, 1_000, 60, 1_060);
    assert!(fresh.is_healthy);
    assert_eq!(fresh.staleness_seconds, 60);
    let stale = check_oracle_health(1, 100, 1_000, 60, 1_061);
    assert!(!stale.is_healthy);
}

#[test]
fn heatmap_lists_each_pool_once() {
    let pools = vec![3u64, 1, 3, 2];
    let map = get_liquidation_heatmap(&pools);
    let keys: Vec<u64> = map.iter().map(|e| e.0).collect();
    assert_eq!(keys, vec![3, 1, 2]);
    assert!(map.iter().all(|e| e.1.is_empty()));
}
