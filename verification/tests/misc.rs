use stellarlend::deadline::{is_expired, is_expired_strict, require_deadline, require_strict_deadline, require_window};
use stellarlend::meta::{
    begin_delegated, cap_from_bps, check_delegated_call, checked_add, configure_caps, enforce_borrow_cap,
    enforce_supply_cap, get_delegation_registry, permission_bit, set_delegation_registry, validate_cap_config, Action,
    Call, CapConfig, MetaTxError,
};
use stellarlend::mocks::{MockOracle, MockToken};
use stellarlend::signature::{consume_nonce, get_nonce, verify_signature_payload, SignatureError, SignaturePayload};
use stellarlend::suite::test_result_for;
use stellarlend::vault::{
    deposit, get_deposit_cap, get_withdraw_position, initialize_deposit_settings, set_withdraw_paused, withdraw,
    DepositCollateral, DepositError, GuardState, VaultSettings, WithdrawError, WithdrawPosition,
};
use stellarlend::wallet::{InstitutionalWallet, ProposalStatus, Transaction, WalletError};

fn empty_position() -> DepositCollateral {
    DepositCollateral { amount: 0, asset: 5, last_deposit_time: 0, expires_at: 0 }
}

#[test]
fn deposit_checks_in_order() {
    let p = empty_position();
    assert_eq!(deposit(GuardState::Entered, false, 100, 10, 0, 1_000, p.clone(), 5, 1), Err(DepositError::Reentrancy));
    assert_eq!(deposit(GuardState::NotEntered, true, 100, 10, 0, 1_000, p.clone(), 5, 1), Err(DepositError::DepositPaused));
    assert_eq!(deposit(GuardState::NotEntered, false, 5, 10, 0, 1_000, p.clone(), 5, 1), Err(DepositError::InvalidAmount));
    assert_eq!(deposit(GuardState::NotEntered, false, 100, 10, 950, 1_000, p.clone(), 5, 1), Err(DepositError::ExceedsDepositCap));
    let (pos, total) = deposit(GuardState::NotEntered, false, 100, 10, 900, 1_000, p, 5, 1).unwrap();
    assert_eq!((pos.amount, total, pos.expires_at), (100, 1_000, 1 + 2_592_000));
    assert_eq!(get_deposit_cap(None), i128::MAX);
}

#[test]
fn withdraw_checks_and_balance() {
    let pos = WithdrawPosition { amount: 500, last_withdraw_time: 0, expires_at: 0 };
    assert_eq!(withdraw(GuardState::NotEntered, false, 600, pos.clone(), 1), Err(WithdrawError::InsufficientBalance));
    assert_eq!(withdraw(GuardState::NotEntered, false, 0, pos.clone(), 1), Err(WithdrawError::InvalidAmount));
    assert_eq!(withdraw(GuardState::NotEntered, true, 10, pos.clone(), 1), Err(WithdrawError::WithdrawPaused));
    assert_eq!(withdraw(GuardState::NotEntered, false, 200, pos, 1).unwrap().amount, 300);
    let expired = WithdrawPosition { amount: 500, last_withdraw_time: 0, expires_at: 10 };
    assert_eq!(get_withdraw_position(Some(expired), 10).amount, 0);
}

#[test]
fn vault_settings_updates() {
    let mut s = VaultSettings { deposit_cap: None, min_deposit_amount: None, min_withdrawal: None, withdraw_paused: false };
    initialize_deposit_settings(&mut s, 1_000, 10).unwrap();
    assert_eq!((s.deposit_cap, s.min_deposit_amount), (Some(1_000), Some(10)));
    set_withdraw_paused(&mut s, false).unwrap();
    assert!(!s.withdraw_paused);
    set_withdraw_paused(&mut s, true).unwrap();
    assert!(s.withdraw_paused);
    set_withdraw_paused(&mut s, false).unwrap();
    assert!(s.withdraw_paused);
}

#[test]
fn deadlines() {
    assert!(!is_expired(10, 10));
    assert!(is_expired(11, 10));
    assert!(is_expired(0, 0));
    assert!(is_expired(5, 0));
    assert_eq!(require_deadline(0, 0, 7u8), Err(7));
    assert!(is_expired_strict(10, 10));
    assert_eq!(require_deadline(10, 10, 7u8), Ok(()));
    assert_eq!(require_deadline(11, 10, 7u8), Err(7));
    assert_eq!(require_strict_deadline(10, 10, 7u8), Err(7));
    assert_eq!(require_window(5, 6, 0, 1u8, 2u8), Err(1));
    assert_eq!(require_window(50, 6, 0, 1u8, 2u8), Ok(()));
    assert_eq!(require_window(50, 6, 49, 1u8, 2u8), Err(2));
}

#[test]
fn signature_payload_checks() {
    let p = SignaturePayload { chain_id: 3, contract_address: 9, version: 1, nonce: 0, payload_hash: [0u8; 32] };
    assert_eq!(verify_signature_payload(4, 9, &p, 1), Err(SignatureError::InvalidChainId));
    assert_eq!(verify_signature_payload(0, 9, &p, 1), Ok(()));
    assert_eq!(verify_signature_payload(3, 8, &p, 1), Err(SignatureError::InvalidContractAddress));
    assert_eq!(verify_signature_payload(3, 9, &p, 2), Err(SignatureError::InvalidVersion));
    assert_eq!(get_nonce(None), 0);
    assert_eq!(consume_nonce(4, 4), Ok(5));
    assert_eq!(consume_nonce(4, 3), Err(SignatureError::InvalidNonce));
}

fn caps() -> CapConfig {
    CapConfig { user_supply_cap_bps: 2_000, user_borrow_cap_bps: 5_000, pool_supply_cap: 10_000, pool_borrow_cap: 5_000 }
}

#[test]
fn meta_caps_and_permissions() {
    assert_eq!(permission_bit(Action::Deposit), 1);
    assert_eq!(permission_bit(Action::DepositCollateral), 16);
    assert_eq!(validate_cap_config(&caps()), Ok(()));
    let bad = CapConfig { user_supply_cap_bps: 10_001, ..caps() };
    assert_eq!(validate_cap_config(&bad), Err(MetaTxError::InvalidCapConfig));
    assert_eq!(configure_caps(2, Some(1), &caps()), Err(MetaTxError::Unauthorized));
    assert_eq!(cap_from_bps(10_000, 2_000), Ok(2_000));
    assert_eq!(checked_add(i128::MAX, 1), Err(MetaTxError::ArithmeticOverflow));
    assert_eq!(enforce_supply_cap(&caps(), 9_000, 0, 1_001), Err(MetaTxError::PoolSupplyCapExceeded));
    assert_eq!(enforce_supply_cap(&caps(), 0, 1_500, 501), Err(MetaTxError::UserSupplyCapExceeded));
    assert_eq!(enforce_supply_cap(&caps(), 0, 1_500, 500), Ok(()));
    assert_eq!(enforce_borrow_cap(&caps(), 0, 0, 600, 1_000), Err(MetaTxError::UserBorrowCapExceeded));
    assert_eq!(enforce_borrow_cap(&caps(), 4_900, 0, 200, 10_000), Err(MetaTxError::PoolBorrowCapExceeded));
    assert_eq!(begin_delegated(10, 9, 0, 0, Some(3)), Err(MetaTxError::Expired));
    assert_eq!(begin_delegated(10, 10, 1, 0, Some(3)), Err(MetaTxError::InvalidNonce));
    assert_eq!(begin_delegated(10, 10, 0, 0, None), Err(MetaTxError::DelegationMissing));
    assert_eq!(begin_delegated(0, 0, 0, 0, Some(3)), Err(MetaTxError::Expired));
    assert_eq!(begin_delegated(10, 9, u64::MAX, u64::MAX, Some(3)), Err(MetaTxError::Expired));
    assert_eq!(begin_delegated(10, 10, 0, u64::MAX, Some(3)), Err(MetaTxError::InvalidNonce));
    assert_eq!(begin_delegated(10, 10, 0, 0, Some(3)), Ok((1, 3)));
    let borrow = Call { action: Action::Borrow, asset: 1, amount: 10, collateral_asset: None, collateral_amount: Some(100) };
    assert_eq!(check_delegated_call(&borrow, true, false, &caps(), 0, 0), Err(MetaTxError::Unauthorized));
    assert_eq!(check_delegated_call(&borrow, false, false, &caps(), 0, 0), Err(MetaTxError::PermissionDenied));
    let mut registry = None;
    set_delegation_registry(&mut registry, 42);
    assert_eq!(get_delegation_registry(&registry), Some(42));
}

fn tx() -> Transaction {
    Transaction { contract: 77, function: "set_threshold".to_string(), args: vec![1, 2] }
}

#[test]
fn wallet_multisig_flow() {
    let mut w = InstitutionalWallet::new();
    assert_eq!(w.initialize(vec![1, 2, 3], 4, 0), Err(WalletError::InvalidThreshold));
    w.initialize(vec![1, 2, 3], 2, 0).unwrap();
    assert_eq!(w.initialize(vec![1], 1, 0), Err(WalletError::AlreadyInitialized));
    assert_eq!(w.propose(9, "x".to_string(), vec![tx()], 1), Err(WalletError::Unauthorized));
    assert_eq!(w.propose(1, "x".to_string(), vec![], 1), Err(WalletError::InvalidBatch));
    let id = w.propose(1, "x".to_string(), vec![tx()], 1).unwrap();
    assert_eq!(id, 1);
    assert_eq!(w.execute(1, id, 2), Err(WalletError::InsufficientApprovals));
    assert_eq!(w.approve(1, id, 2), Err(WalletError::AlreadyVoted));
    w.approve(2, id, 2).unwrap();
    w.execute(3, id, 3).unwrap();
    assert_eq!(w.get_proposal(id).unwrap().status, ProposalStatus::Executed);
    assert_eq!(w.execute(3, id, 4), Err(WalletError::ProposalNotActive));
    assert_eq!(w.get_audit_trail(id).len(), 3);
    assert_eq!(w.remove_admin(1), Ok(()));
    assert_eq!(w.remove_admin(2), Err(WalletError::InvalidThreshold));
    assert_eq!(w.set_threshold(3), Err(WalletError::InvalidThreshold));
    assert_eq!(w.get_threshold(), 2);
}

#[test]
fn wallet_guardian_recovery() {
    let mut w = InstitutionalWallet::new();
    w.initialize(vec![1, 2], 2, 0).unwrap();
    w.propose_guardians(1, vec![10, 11], 2, 0).unwrap();
    assert_eq!(w.accept_guardian(12, 0), Err(WalletError::Unauthorized));
    w.accept_guardian(10, 0).unwrap();
    w.accept_guardian(11, 0).unwrap();
    assert!(w.is_guardian_accepted(10));
    assert_eq!(w.get_guardians(), vec![10, 11]);
    assert_eq!(w.get_pending_guardian_invites(), vec![10, 11]);
    assert_eq!(w.get_guardian_threshold(), 2);
    assert!(w.get_recovery_request().is_none());
    w.start_recovery(10, vec![5], 1, 100).unwrap();
    assert_eq!(w.get_guardian_approvals(), vec![10]);
    assert_eq!(w.get_recovery_request().unwrap().new_threshold, 1);
    assert_eq!(w.start_recovery(11, vec![5], 1, 100), Err(WalletError::RecoveryAlreadyExists));
    assert_eq!(w.execute_recovery(10, 200), Err(WalletError::ExecutionFailed));
    assert_eq!(w.execute_recovery(10, 100 + 86_400), Err(WalletError::InsufficientApprovals));
    w.approve_recovery(11, 150).unwrap();
    assert_eq!(w.cancel_recovery_by_owner(1, 160), Err(WalletError::ExecutionFailed));
    w.execute_recovery(11, 100 + 86_400).unwrap();
    assert_eq!(w.admins, vec![5]);
    assert_eq!(w.get_admins(), vec![5]);
    assert_eq!(w.get_last_activity(), 100 + 86_400);
    assert_eq!(w.get_threshold(), 1);
    assert!(w.recovery.is_none());
}

#[test]
fn mocks_behave_as_doubles() {
    let mut t = MockToken::initialize(1, 7, "Token".to_string(), "TKN".to_string());
    assert_eq!(t.balance(4), 0);
    t.mint(4, 100);
    t.burn(4, 130);
    assert_eq!(t.balance(4), -30);
    t.transfer(4, 5, 10);
    assert_eq!(t.balance(5), 0);
    let mut o = MockOracle::initialize(1);
    o.set_price(3, 42);
    assert_eq!(o.get_price(3), 1_000_000);
    assert_eq!(o.get_last_updated(3), 0);
}

#[test]
fn suite_results() {
    let ok = test_result_for(Ok(()));
    assert!(ok.passed);
    assert_eq!(ok.message, "Passed");
    assert_eq!(ok.name, "test");
    let err = test_result_for(Err("boom".to_string()));
    assert!(!err.passed);
    assert_eq!(err.message, "boom");
    assert_eq!(err.gas_used, None);
}

