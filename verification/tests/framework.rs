use stellarlend::assertions::{
    assert_approximately_equal, assert_balances_equal, assert_greater_than, assert_in_range, assert_less_than,
    assert_non_negative, assert_not_zero, assert_percentage_in_range, assert_positive, assert_zero,
};
use stellarlend::fixtures::{AmountFixtures, AssetConfigFixture, RateFixtures, TimeFixtures, DEFAULT_PRICE};
use stellarlend::gas_benchmark::GasMetrics;
use stellarlend::scenarios::{deposit_borrow_liquidate_repay, multi_collateral_liquidation, ScenarioRunner};
use stellarlend::test_helpers::{assert_close, assert_equal_with_tolerance, calculate_interest_accrual, health_factor_bps, is_liquidatable};

#[test]
fn fixtures_build_configs() {
    let c = AssetConfigFixture::new().with_collateral_factor(6_000).with_price(5);
    assert_eq!(c.collateral_factor, 6_000);
    assert_eq!(c.price, 5);
    assert_eq!(AssetConfigFixture::new().price, DEFAULT_PRICE);
    assert!(AssetConfigFixture::conservative().collateral_factor < AssetConfigFixture::aggressive().collateral_factor);
    assert_eq!(AmountFixtures::MEDIUM, 100_000);
    assert_eq!(TimeFixtures::DAY, 86_400);
    assert_eq!(RateFixtures::FIVE_PERCENT, 500);
}

#[test]
fn assertions_pass_on_valid_inputs() {
    assert_non_negative(0, "zero");
    assert_positive(1, "one");
    assert_in_range(5, 1, 10, "range");
    assert_balances_equal(7, 7, "equal");
    assert_approximately_equal(100, 103, 3, "approx");
    assert_percentage_in_range(500, 400, 600, 10_000, "pct");
    assert_greater_than(2, 1, "gt");
    assert_less_than(1, 2, "lt");
    assert_zero(0, "zero");
    assert_not_zero(3, "nz");
}

#[test]
fn helper_formulas() {
    assert_eq!(health_factor_bps(2_000, 1_000, 8_000), 16_000);
    assert_eq!(health_factor_bps(2_000, 0, 8_000), i128::MAX);
    assert!(is_liquidatable(9_999));
    assert!(!is_liquidatable(10_000));
    assert_eq!(calculate_interest_accrual(100_000, 500, 31_536_000), 5_000);
    assert_equal_with_tolerance(10_050, 10_000, 100);
    assert_close(98, 100, 2);
}

#[test]
fn gas_checks_against_baselines() {
    let ok = GasMetrics::check_gas("deposit", 105_000);
    assert!(ok.passed);
    assert_eq!(ok.expected_gas, 100_000);
    assert_eq!(ok.difference_bps, 500);
    let bad = GasMetrics::check_gas("borrow", 160_000);
    assert!(!bad.passed);
    assert_eq!(GasMetrics::check_gas("other", 40_000).difference_bps, -2_000);
    let mut m = GasMetrics::new();
    m.add_benchmark("repay", 120_000, 500);
    assert_eq!(m.benchmarks.len(), 1);
    assert_eq!(m.benchmarks[0].operation, "repay");
}

#[test]
fn scenarios_are_scripted() {
    let s = deposit_borrow_liquidate_repay();
    assert_eq!(s.id, "scenario_001");
    assert_eq!(s.steps.len(), 4);
    assert_eq!(s.steps[2].params[0].1, "user1");
    let m = multi_collateral_liquidation();
    assert_eq!(m.steps[0].params.len(), 2);
    let r = ScenarioRunner::new().run_scenario(&s);
    assert!(r.passed);
    assert_eq!(r.total_steps, 4);
}
