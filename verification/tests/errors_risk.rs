use stellarlend::errors::{CrossContractError, InitializationError, ProtocolError, StorageError, ValidationError};
use stellarlend::risk::{RiskManager, RiskMetrics};
use stellarlend::vault::{enter_guard, get_guard_state, guard_state_value, GuardState};

#[test]
fn test_guard_state_transitions() {
    assert_eq!(
        GuardState::NotEntered,
        GuardState::NotEntered,
        "Initial state should be NotEntered"
    );
}

#[test]
fn guard_enter_and_stored_states() {
    let entered = enter_guard(GuardState::NotEntered).unwrap();
    assert_eq!(entered, GuardState::Entered);
    assert_eq!(get_guard_state(Some(1)), GuardState::Entered);
    assert_eq!(get_guard_state(Some(7)), GuardState::NotEntered);
    assert_eq!(get_guard_state(None), GuardState::NotEntered);
    assert_eq!(guard_state_value(GuardState::Entered), 1);
    assert_eq!(guard_state_value(GuardState::NotEntered), 0);
}

#[test]
fn protocol_error_codes_are_stable() {
    assert_eq!(ProtocolError::Unauthorized.code(), 1000);
    assert_eq!(ProtocolError::AlreadyInitialized.code(), 1001);
    assert_eq!(ProtocolError::Unknown.code(), 1999);
}

#[test]
fn protocol_error_messages_are_human_readable() {
    assert_eq!(
        ProtocolError::InsufficientCollateral.message(),
        "Insufficient collateral"
    );
    assert_eq!(
        ProtocolError::DeadlineExpired.message(),
        "Deadline has expired"
    );
}

#[test]
fn internal_errors_map_into_protocol_errors() {
    let validation: ProtocolError = ValidationError::LimitExceeded.into();
    let init: ProtocolError = InitializationError::AlreadyInitialized.into();
    let storage: ProtocolError = StorageError::SerializationFailure.into();
    let cross: ProtocolError = CrossContractError::DuplicateRequest.into();

    assert_eq!(validation, ProtocolError::LimitExceeded);
    assert_eq!(init, ProtocolError::AlreadyInitialized);
    assert_eq!(storage, ProtocolError::SerializationFailure);
    assert_eq!(cross, ProtocolError::DuplicateRequest);
}

#[test]
fn unknown_codes_fail_closed() {
    assert_eq!(ProtocolError::from_code(42), ProtocolError::Unknown);
}

#[test]
fn error_codes_round_trip() {
    for e in [
        ProtocolError::Unauthorized,
        ProtocolError::AlreadyInitialized,
        ProtocolError::InsufficientCollateral,
        ProtocolError::DeadlineExpired,
        ProtocolError::LimitExceeded,
        ProtocolError::SerializationFailure,
        ProtocolError::DuplicateRequest,
    ] {
        assert_eq!(ProtocolError::from_code(e.code()), e);
    }
}

#[test]
fn test_liquidation_eligibility() {
    assert!(RiskManager::check_liquidation_eligibility(100_000, 90_000, 8_000));
    assert!(!RiskManager::check_liquidation_eligibility(100_000, 50_000, 8_000));
}

#[test]
fn test_liquidation_bonus() {
    let bonus = RiskManager::calculate_liquidation_bonus(100_000, 500);
    assert_eq!(bonus, 5_000);
}

#[test]
fn test_ltv_calculation() {
    assert_eq!(RiskManager::calculate_ltv(50_000, 100_000), 5_000);
    assert_eq!(RiskManager::calculate_ltv(80_000, 100_000), 8_000);
}

#[test]
fn test_borrow_capacity() {
    assert!(RiskManager::validate_borrow_capacity(100_000, 50_000, 10_000, 7_500));
    assert!(!RiskManager::validate_borrow_capacity(100_000, 70_000, 10_000, 7_500));
}

#[test]
fn test_concentration_risk() {
    assert!(RiskManager::check_concentration_risk(30_000, 100_000, 5_000));
    assert!(!RiskManager::check_concentration_risk(60_000, 100_000, 5_000));
}

#[test]
fn test_risk_metrics() {
    let metrics = RiskMetrics::calculate(100_000, 50_000, 7_500, 8_000);
    assert_eq!(metrics.ltv_ratio, 5_000);
    assert!(metrics.health_factor > 10_000);
    assert_eq!(metrics.borrow_capacity, 75_000);
}
