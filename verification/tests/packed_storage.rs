use stellarlend::packed_config::{
    flag_is_set, flag_with, load, migrate_from_legacy, pack, pack_bps_field, store, unpack, unpack_bps_field, PackError,
    PoolConfig, FLAG_BORROWING_ENABLED, FLAG_COLLATERAL_ENABLED, FLAG_DEPRECATED, FLAG_PAUSED,
};

fn sample() -> PoolConfig {
    PoolConfig {
        ltv_bps: 7_500,
        liquidation_threshold_bps: 8_000,
        reserve_factor_bps: 1_000,
        close_factor_bps: 5_000,
        liquidation_incentive_bps: 1_000,
        last_update: 1_700_000_000,
        flags: FLAG_BORROWING_ENABLED | FLAG_COLLATERAL_ENABLED,
    }
}

#[test]
fn pack_unpack_round_trips() {
    let cfg = sample();
    let packed = pack(&cfg).unwrap();
    assert_eq!(unpack(&packed), cfg);
}

#[test]
fn fields_are_independent() {
    let mut cfg = sample();
    cfg.reserve_factor_bps = 0xFFFF;
    let back = unpack(&pack(&cfg).unwrap());
    assert_eq!(back.reserve_factor_bps, 0xFFFF);
    assert_eq!(back.ltv_bps, 7_500);
    assert_eq!(back.liquidation_threshold_bps, 8_000);
    assert_eq!(back.close_factor_bps, 5_000);
    assert_eq!(back.liquidation_incentive_bps, 1_000);
}

#[test]
fn five_bps_fields_fit_one_word() {
    let packed = pack(&sample()).unwrap();
    assert_eq!(packed.rate_word >> 80, 0);
}

#[test]
fn bps_field_overflow_rejected() {
    let mut cfg = sample();
    cfg.ltv_bps = 0x1_0000;
    assert_eq!(pack(&cfg), Err(PackError::BpsFieldOverflow));
}

#[test]
fn negative_bps_rejected() {
    let mut cfg = sample();
    cfg.close_factor_bps = -1;
    assert_eq!(pack(&cfg), Err(PackError::BpsFieldOverflow));
}

#[test]
fn timestamp_overflow_rejected() {
    let mut cfg = sample();
    cfg.last_update = 1u64 << 41;
    assert_eq!(pack(&cfg), Err(PackError::TimestampOverflow));
}

#[test]
fn flags_round_trip_and_helpers() {
    let mut cfg = sample();
    cfg.flags = flag_with(cfg.flags, FLAG_PAUSED, true);
    let back = unpack(&pack(&cfg).unwrap());
    assert!(flag_is_set(back.flags, FLAG_PAUSED));
    assert!(flag_is_set(back.flags, FLAG_BORROWING_ENABLED));
    assert!(!flag_is_set(back.flags, FLAG_DEPRECATED));

    let cleared = flag_with(back.flags, FLAG_PAUSED, false);
    assert!(!flag_is_set(cleared, FLAG_PAUSED));
}

#[test]
fn flags_do_not_corrupt_timestamp() {
    let mut cfg = sample();
    cfg.flags = 0xFF;
    let back = unpack(&pack(&cfg).unwrap());
    assert_eq!(back.last_update, 1_700_000_000);
    assert_eq!(back.flags, 0xFF);
}

#[test]
fn bps_field_helpers_exact_values() {
    assert_eq!(pack_bps_field(0x1234, 2), Ok(0x1234u128 << 32));
    assert_eq!(unpack_bps_field(0x1234u128 << 32, 2), 0x1234);
    assert_eq!(pack_bps_field(0x1_0000, 0), Err(PackError::BpsFieldOverflow));
}

#[test]
fn store_then_load_round_trips() {
    let mut stored = None;
    assert_eq!(load(&stored), None);
    store(&mut stored, &sample()).unwrap();
    assert_eq!(load(&stored), Some(sample()));
    let mut bad = sample();
    bad.ltv_bps = -5;
    assert_eq!(store(&mut stored, &bad), Err(PackError::BpsFieldOverflow));
    assert_eq!(load(&stored), Some(sample()));
}

#[test]
fn legacy_migration_is_idempotent() {
    let mut stored = None;
    let first = migrate_from_legacy(&mut stored, 8_000, 5_000, 1_000, 1_000).unwrap();
    assert_eq!(first.ltv_bps, 8_000);
    assert_eq!(first.liquidation_threshold_bps, 8_000);
    assert_eq!(first.reserve_factor_bps, 0);
    assert_eq!(first.flags, FLAG_BORROWING_ENABLED | FLAG_COLLATERAL_ENABLED);
    let second = migrate_from_legacy(&mut stored, 1, 2, 3, 9_999).unwrap();
    assert_eq!(second, first);
}
