use stellarlend::interest::{
    accrue, advance_index, current_index, get_cache, interest_for, InterestCacheError, BPS_SCALE, INDEX_SCALE,
    SECONDS_PER_YEAR,
};
use stellarlend::lazy::{default_for, LazyError, LazyField, LazyStore};

#[test]
fn advance_index_zero_dt_is_noop() {
    assert_eq!(advance_index(INDEX_SCALE, 500, 0).unwrap(), INDEX_SCALE);
}

#[test]
fn advance_index_zero_rate_is_noop() {
    assert_eq!(
        advance_index(INDEX_SCALE, 0, SECONDS_PER_YEAR as u64).unwrap(),
        INDEX_SCALE
    );
}

#[test]
fn advance_index_full_year_at_5pct() {
    let next = advance_index(INDEX_SCALE, 500, SECONDS_PER_YEAR as u64).unwrap();
    assert_eq!(next, INDEX_SCALE + INDEX_SCALE * 5 / 100);
}

#[test]
fn advance_index_is_incremental_and_consistent() {
    let half = (SECONDS_PER_YEAR / 2) as u64;
    let a = advance_index(INDEX_SCALE, 1000, half).unwrap();
    let b = advance_index(a, 1000, half).unwrap();
    let expected_delta_each = INDEX_SCALE * 1000 * (half as i128) / (BPS_SCALE * SECONDS_PER_YEAR);
    assert_eq!(a, INDEX_SCALE + expected_delta_each);
    let second_delta = a * 1000 * (half as i128) / (BPS_SCALE * SECONDS_PER_YEAR);
    assert_eq!(b, a + second_delta);
    assert!(b > a);
}

#[test]
fn interest_for_basic() {
    let idx = INDEX_SCALE + INDEX_SCALE / 10;
    assert_eq!(interest_for(1_000_000, INDEX_SCALE, idx).unwrap(), 100_000);
}

#[test]
fn interest_for_zero_principal() {
    assert_eq!(interest_for(0, INDEX_SCALE, INDEX_SCALE * 2).unwrap(), 0);
}

#[test]
fn interest_for_reorg_rewind_is_flagged() {
    let res = interest_for(1_000, INDEX_SCALE * 2, INDEX_SCALE);
    assert_eq!(res, Err(InterestCacheError::StaleSnapshot));
}

#[test]
fn no_op_when_index_unchanged() {
    assert_eq!(interest_for(5_000, INDEX_SCALE, INDEX_SCALE).unwrap(), 0);
}

#[test]
fn advance_index_overflow_is_reported() {
    assert_eq!(advance_index(i128::MAX, 10_000, u64::MAX), Err(InterestCacheError::Overflow));
}

#[test]
fn accrue_same_ledger_is_charged_once() {
    let cache = get_cache(None, 10, 1_000, 500);
    let once = accrue(cache.clone(), 11, 1_000 + SECONDS_PER_YEAR as u64, 500).unwrap();
    let twice = accrue(once.clone(), 11, 1_000 + SECONDS_PER_YEAR as u64, 500).unwrap();
    assert_eq!(once, twice);
    assert_eq!(current_index(&once, 1_000 + SECONDS_PER_YEAR as u64), INDEX_SCALE + INDEX_SCALE * 5 / 100);
}

#[test]
fn defaults_are_pure() {
    assert_eq!(default_for(LazyField::ReserveBalance), 0);
    assert_eq!(default_for(LazyField::AccumulatedFees), 0);
    assert_eq!(default_for(LazyField::BorrowIndexSnapshot), 1_000_000_000);
}

#[test]
fn read_before_init_returns_default_without_writing() {
    let store = LazyStore::new();
    assert!(!store.is_initialized(LazyField::ReserveBalance));
    assert_eq!(store.get(LazyField::ReserveBalance), 0);
    assert!(!store.is_initialized(LazyField::ReserveBalance));
}

#[test]
fn ensure_initialized_is_idempotent() {
    let mut store = LazyStore::new();
    assert!(store.ensure_initialized(LazyField::AccumulatedFees));
    assert!(store.is_initialized(LazyField::AccumulatedFees));
    assert!(!store.ensure_initialized(LazyField::AccumulatedFees));
}

#[test]
fn add_initialises_on_first_use() {
    let mut store = LazyStore::new();
    assert!(!store.is_initialized(LazyField::TotalReserves));
    let total = store.add(LazyField::TotalReserves, 500).unwrap();
    assert_eq!(total, 500);
    assert!(store.is_initialized(LazyField::TotalReserves));
    assert_eq!(store.add(LazyField::TotalReserves, 250).unwrap(), 750);
}

#[test]
fn set_rejects_negative() {
    let mut store = LazyStore::new();
    assert_eq!(
        store.set(LazyField::ReserveBalance, -1),
        Err(LazyError::InvalidValue)
    );
}

#[test]
fn migration_writes_all_then_is_noop() {
    let mut store = LazyStore::new();
    assert_eq!(store.migrate_initialize_all(), 5);
    assert_eq!(store.migrate_initialize_all(), 0);
    assert_eq!(store.get(LazyField::BorrowIndexSnapshot), 1_000_000_000);
}
