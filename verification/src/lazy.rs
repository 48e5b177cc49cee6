//! Lazily initialised pool-state fields: a slot is written the first time an
//! operation needs it, and reads fall back to a well-defined default until then.
use vstd::prelude::*;
use crate::math::fits_i128;

verus! {

/// Failures of lazy-field updates.
#[derive(Copy, Clone, Debug, PartialEq, Eq, Structural)]
pub enum LazyError {
    /// A negative value for a non-negative field.
    InvalidValue,
}

/// Deferrable pool-state fields.
#[derive(Clone, Copy, Debug, PartialEq, Eq, Structural)]
pub enum LazyField {
    ReserveBalance,
    AccumulatedFees,
    LiquidationCounter,
    TotalReserves,
    BorrowIndexSnapshot,
}

/// The value a field reads as before its first write.
pub open spec fn default_spec(field: LazyField) -> i128 {
    match field {
        LazyField::BorrowIndexSnapshot => 1_000_000_000,
        _ => 0,
    }
}

/// Default of a field: the borrow index starts at 1.0 (scaled 1e9), every
/// counter or balance starts empty.
pub fn default_for(field: LazyField) -> (r: i128)
    ensures
        r == default_spec(field),
{
    match field {
        LazyField::BorrowIndexSnapshot => 1_000_000_000,
        _ => 0,
    }
}

/// The persisted slots of the lazy fields; `None` is a slot never written.
#[derive(Clone, Debug, PartialEq, Eq, Structural)]
pub struct LazyStore {
    pub reserve_balance: Option<i128>,
    pub accumulated_fees: Option<i128>,
    pub liquidation_counter: Option<i128>,
    pub total_reserves: Option<i128>,
    pub borrow_index_snapshot: Option<i128>,
}

impl LazyStore {
    /// The slot of a field.
    pub open spec fn slot(self, field: LazyField) -> Option<i128> {
        match field {
            LazyField::ReserveBalance => self.reserve_balance,
            LazyField::AccumulatedFees => self.accumulated_fees,
            LazyField::LiquidationCounter => self.liquidation_counter,
            LazyField::TotalReserves => self.total_reserves,
            LazyField::BorrowIndexSnapshot => self.borrow_index_snapshot,
        }
    }

    /// The value a field reads as.
    pub open spec fn value(self, field: LazyField) -> i128 {
        match self.slot(field) {
            Some(v) => v,
            None => default_spec(field),
        }
    }

    /// `self` with the slot of `field` written to `v` and every other slot kept.
    pub open spec fn with_slot(self, field: LazyField, v: i128) -> LazyStore {
        match field {
            LazyField::ReserveBalance => LazyStore { reserve_balance: Some(v), ..self },
            LazyField::AccumulatedFees => LazyStore { accumulated_fees: Some(v), ..self },
            LazyField::LiquidationCounter => LazyStore { liquidation_counter: Some(v), ..self },
            LazyField::TotalReserves => LazyStore { total_reserves: Some(v), ..self },
            LazyField::BorrowIndexSnapshot => LazyStore { borrow_index_snapshot: Some(v), ..self },
        }
    }

    /// A store in which no slot has been written.
    pub fn new() -> (r: Self)
        ensures
            forall|f: LazyField| r.slot(f) is None,
    {
        LazyStore { reserve_balance: None, accumulated_fees: None, liquidation_counter: None, total_reserves: None, borrow_index_snapshot: None }
    }

    fn read_slot(&self, field: LazyField) -> (r: Option<i128>)
        ensures
            r == self.slot(field),
    {
        match field {
            LazyField::ReserveBalance => self.reserve_balance,
            LazyField::AccumulatedFees => self.accumulated_fees,
            LazyField::LiquidationCounter => self.liquidation_counter,
            LazyField::TotalReserves => self.total_reserves,
            LazyField::BorrowIndexSnapshot => self.borrow_index_snapshot,
        }
    }

    fn write_slot(&mut self, field: LazyField, v: i128)
        ensures
            *final(self) == old(self).with_slot(field, v),
    {
        match field {
            LazyField::ReserveBalance => self.reserve_balance = Some(v),
            LazyField::AccumulatedFees => self.accumulated_fees = Some(v),
            LazyField::LiquidationCounter => self.liquidation_counter = Some(v),
            LazyField::TotalReserves => self.total_reserves = Some(v),
            LazyField::BorrowIndexSnapshot => self.borrow_index_snapshot = Some(v),
        }
    }

    /// Whether the field's slot has been written at least once.
    pub fn is_initialized(&self, field: LazyField) -> (r: bool)
        ensures
            r == (self.slot(field) is Some),
    {
        self.read_slot(field).is_some()
    }

    /// Reads a field; an unwritten slot reads as its default and stays unwritten.
    pub fn get(&self, field: LazyField) -> (r: i128)
        ensures
            r == self.value(field),
    {
        match self.read_slot(field) {
            Some(v) => v,
            None => default_for(field),
        }
    }

    /// Writes the default into an unwritten slot; returns whether this call wrote it.
    pub fn ensure_initialized(&mut self, field: LazyField) -> (r: bool)
        ensures
            r == (old(self).slot(field) is None),
            r ==> *final(self) == old(self).with_slot(field, default_spec(field)),
            !r ==> *final(self) == *old(self),
    {
        if self.is_initialized(field) {
            return false;
        }
        let d = default_for(field);
        self.write_slot(field, d);
        true
    }

    /// Stores a value; negative values are rejected.
    pub fn set(&mut self, field: LazyField, value: i128) -> (r: Result<(), LazyError>)
        ensures
            value < 0 ==> r == Err::<(), LazyError>(LazyError::InvalidValue) && *final(self) == *old(self),
            value >= 0 ==> r is Ok && *final(self) == old(self).with_slot(field, value),
    {
        if value < 0 {
            return Err(LazyError::InvalidValue);
        }
        self.write_slot(field, value);
        Ok(())
    }

    /// Adds `delta` to a field (initialising it on first use) and returns the new value.
    pub fn add(&mut self, field: LazyField, delta: i128) -> (r: Result<i128, LazyError>)
        ensures
            ({
                let next = old(self).value(field) + delta;
                if fits_i128(next) && next >= 0 {
                    r == Ok::<i128, LazyError>(next as i128) && *final(self) == old(self).with_slot(field, next as i128)
                } else {
                    r == Err::<i128, LazyError>(LazyError::InvalidValue) && *final(self) == *old(self)
                }
            }),
    {
        let current = self.get(field);
        let next = match current.checked_add(delta) {
            None => return Err(LazyError::InvalidValue),
            Some(n) => n,
        };
        self.set(field, next)?;
        Ok(next)
    }

    /// Writes the default into every unwritten slot and returns how many were written.
    pub fn migrate_initialize_all(&mut self) -> (r: u32)
        ensures
            forall|f: LazyField| final(self).slot(f) is Some,
            forall|f: LazyField| #[trigger] final(self).value(f) == old(self).value(f),
            r == (if old(self).reserve_balance is None { 1u32 } else { 0u32 })
                + (if old(self).accumulated_fees is None { 1u32 } else { 0u32 })
                + (if old(self).liquidation_counter is None { 1u32 } else { 0u32 })
                + (if old(self).total_reserves is None { 1u32 } else { 0u32 })
                + (if old(self).borrow_index_snapshot is None { 1u32 } else { 0u32 }),
    {
        let mut written: u32 = 0;
        if self.ensure_initialized(LazyField::ReserveBalance) { written = written + 1; }
        if self.ensure_initialized(LazyField::AccumulatedFees) { written = written + 1; }
        if self.ensure_initialized(LazyField::LiquidationCounter) { written = written + 1; }
        if self.ensure_initialized(LazyField::TotalReserves) { written = written + 1; }
        if self.ensure_initialized(LazyField::BorrowIndexSnapshot) { written = written + 1; }
        written
    }
}

/// Once every slot is written, a further migration writes nothing.
pub proof fn lemma_migration_is_idempotent(s: LazyStore)
    requires
        forall|f: LazyField| s.slot(f) is Some,
    ensures
        (if s.reserve_balance is None { 1u32 } else { 0u32 })
            + (if s.accumulated_fees is None { 1u32 } else { 0u32 })
            + (if s.liquidation_counter is None { 1u32 } else { 0u32 })
            + (if s.total_reserves is None { 1u32 } else { 0u32 })
            + (if s.borrow_index_snapshot is None { 1u32 } else { 0u32 }) == 0,
{
    assert(s.slot(LazyField::ReserveBalance) is Some);
    assert(s.slot(LazyField::AccumulatedFees) is Some);
    assert(s.slot(LazyField::LiquidationCounter) is Some);
    assert(s.slot(LazyField::TotalReserves) is Some);
    assert(s.slot(LazyField::BorrowIndexSnapshot) is Some);
}

/// A written value reads back, and no other field changes.
pub proof fn lemma_set_then_get(s: LazyStore, field: LazyField, other: LazyField, v: i128)
    requires
        other != field,
    ensures
        s.with_slot(field, v).value(field) == v,
        s.with_slot(field, v).value(other) == s.value(other),
{
}

} // verus!
