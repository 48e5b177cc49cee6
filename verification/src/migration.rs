//! Migration hub: moves users' positions from other protocols into the
//! lending protocol before a deadline, numbering each migration, keeping
//! success and failure analytics, previewing costs and letting the admin roll
//! a completed migration back. Pulling the funds from the source protocol
//! happens between the checks and the record, outside this logic.
use vstd::prelude::*;
use crate::math::{fits_i128, tdiv};
use crate::types::AccountId;
use crate::table::Table;
use crate::deadline::{require_deadline, expired_at};

verus! {

/// Errors of the migration hub.
#[derive(Copy, Clone, Debug, PartialEq, Eq, Structural)]
pub enum MigrationError {
    NotInitialized,
    AlreadyInitialized,
    Unauthorized,
    InvalidProtocol,
    MigrationFailed,
    RateLimitExceeded,
    BridgeError,
    DeadlineExceeded,
    InsufficientFunds,
    InvalidPercentage,
    RollbackFailed,
    DestinationPoolInactive,
    InterestCalculationFailed,
}

/// Where funds come from.
#[derive(Copy, Clone, Debug, PartialEq, Eq, Structural)]
pub enum ProtocolType {
    StellarOther,
    CrossChainBridge,
    AaveMock,
}

/// Outcome of a migration.
#[derive(Copy, Clone, Debug, PartialEq, Eq, Structural)]
pub enum MigrationStatus {
    Pending,
    Completed,
    Failed,
}

/// A recorded migration.
#[derive(Copy, Clone, Debug, PartialEq, Eq, Structural)]
pub struct MigrationRecord {
    pub user: AccountId,
    pub protocol: ProtocolType,
    pub asset: AccountId,
    pub amount: i128,
    pub status: MigrationStatus,
    pub timestamp: u64,
    pub source_pool: AccountId,
    pub destination_pool: AccountId,
    pub interest_at_migration: i128,
    pub is_partial: bool,
    pub source_position_id: Option<u64>,
}

/// Estimated cost of a migration.
#[derive(Copy, Clone, Debug, PartialEq, Eq, Structural)]
pub struct MigrationPreview {
    pub estimated_gas: u64,
    pub estimated_slippage_bps: u32,
    pub interest_impact: i128,
    pub expected_output: i128,
}

/// Share of a position to migrate.
#[derive(Copy, Clone, Debug, PartialEq, Eq, Structural)]
pub struct PartialMigrationConfig {
    /// In basis points, 1 to 10 000.
    pub percentage: u32,
    pub min_amount: i128,
}

/// Record of an emergency rollback.
pub struct EmergencyRollback {
    pub migration_id: u64,
    pub reason: String,
    pub rollback_timestamp: u64,
    pub success: bool,
}

/// Hub configuration.
#[derive(Copy, Clone, Debug, PartialEq, Eq, Structural)]
pub struct MigrationConfig {
    pub lending_contract: AccountId,
    pub bridge_contract: AccountId,
    pub rate_limit_per_ledger: u32,
    pub migration_deadline: u64,
}

/// Counters of migrations.
#[derive(Copy, Clone, Debug, PartialEq, Eq, Structural)]
pub struct MigrationAnalytics {
    pub total_migrated_value: i128,
    pub total_users: u32,
    pub successful_migrations: u32,
    pub failed_migrations: u32,
}

/// Hub state.
pub struct MigrationHub {
    pub admin: Option<AccountId>,
    pub config: Option<MigrationConfig>,
    pub analytics: MigrationAnalytics,
    pub next_id: u64,
    pub migrations: Table<u64, MigrationRecord>,
    pub rollbacks: Vec<EmergencyRollback>,
}

/// Analytics after one outcome: a success adds the amount and a user.
pub open spec fn counted(a: MigrationAnalytics, success: bool, amount: i128) -> MigrationAnalytics {
    if success {
        MigrationAnalytics {
            successful_migrations: (a.successful_migrations + 1) as u32,
            total_migrated_value: (a.total_migrated_value + amount) as i128,
            total_users: (a.total_users + 1) as u32,
            ..a
        }
    } else {
        MigrationAnalytics { failed_migrations: (a.failed_migrations + 1) as u32, ..a }
    }
}

/// The counters that one more outcome increments can take it without
/// overflowing: a success adds a migration, a user and the amount; a failure
/// adds a failed migration only.
pub open spec fn countable(a: MigrationAnalytics, success: bool, amount: i128) -> bool {
    if success {
        &&& a.successful_migrations < u32::MAX
        &&& a.total_users < u32::MAX
        &&& fits_i128(a.total_migrated_value + amount)
    } else {
        a.failed_migrations < u32::MAX
    }
}

/// Every recorded migration has a number below the next one, so a new
/// migration never overwrites an earlier record.
pub open spec fn ids_below(h: MigrationHub) -> bool {
    forall|k: u64| h.migrations@.contains_key(k) ==> k < h.next_id
}

impl MigrationHub {
    /// A hub that has not been initialised.
    pub fn new() -> (r: Self)
        ensures
            r.admin is None && r.config is None && r.next_id == 0,
            r.migrations@ == Map::<u64, MigrationRecord>::empty(),
            r.rollbacks@.len() == 0,
            r.analytics == (MigrationAnalytics { total_migrated_value: 0, total_users: 0, successful_migrations: 0, failed_migrations: 0 }),
            ids_below(r),
    {
        MigrationHub {
            admin: None,
            config: None,
            analytics: MigrationAnalytics { total_migrated_value: 0, total_users: 0, successful_migrations: 0, failed_migrations: 0 },
            next_id: 0,
            migrations: Table::new(),
            rollbacks: Vec::new(),
        }
    }

    /// Sets admin and configuration, once; counters start at zero.
    pub fn initialize(&mut self, admin: AccountId, lending_contract: AccountId, bridge_contract: AccountId,
        rate_limit: u32, deadline: u64) -> (r: Result<(), MigrationError>)
        ensures
            r == (if old(self).admin is Some { Err(MigrationError::AlreadyInitialized) } else { Ok(()) }),
            r is Ok ==> final(self).admin == Some(admin)
                && final(self).config == Some(MigrationConfig { lending_contract, bridge_contract,
                    rate_limit_per_ledger: rate_limit, migration_deadline: deadline })
                && final(self).analytics == (MigrationAnalytics { total_migrated_value: 0, total_users: 0,
                    successful_migrations: 0, failed_migrations: 0 })
                && final(self).next_id == 0 && final(self).migrations@ == old(self).migrations@,
            old(self).migrations@ == Map::<u64, MigrationRecord>::empty() ==> ids_below(*final(self)),
            r is Err ==> *final(self) == *old(self),
    {
        if self.admin.is_some() {
            return Err(MigrationError::AlreadyInitialized);
        }
        self.admin = Some(admin);
        self.config = Some(MigrationConfig { lending_contract, bridge_contract, rate_limit_per_ledger: rate_limit,
            migration_deadline: deadline });
        self.analytics = MigrationAnalytics { total_migrated_value: 0, total_users: 0, successful_migrations: 0, failed_migrations: 0 };
        self.next_id = 0;
        Ok(())
    }

    /// The checks before funds are pulled: the hub is configured and the
    /// migration deadline has not passed. Yields the configuration.
    pub fn check_migration(&self, now: u64) -> (r: Result<MigrationConfig, MigrationError>)
        ensures
            r == (match self.config {
                None => Err(MigrationError::NotInitialized),
                Some(c) => if expired_at(now, c.migration_deadline) { Err(MigrationError::DeadlineExceeded) } else { Ok(c) },
            }),
    {
        let config = match self.config {
            None => return Err(MigrationError::NotInitialized),
            Some(c) => c,
        };
        require_deadline(now, config.migration_deadline, MigrationError::DeadlineExceeded)?;
        Ok(config)
    }

    fn save(&mut self, record: MigrationRecord, success: bool) -> (id: u64)
        requires
            old(self).next_id < u64::MAX,
            countable(old(self).analytics, success, record.amount),
        ensures
            id == old(self).next_id,
            final(self).next_id == old(self).next_id + 1,
            final(self).migrations@ == old(self).migrations@.insert(id, record),
            final(self).analytics == counted(old(self).analytics, success, record.amount),
            final(self).admin == old(self).admin && final(self).config == old(self).config,
            final(self).rollbacks == old(self).rollbacks,
    {
        let id = self.next_id;
        self.next_id = id + 1;
        self.migrations.set(id, record);
        if success {
            self.analytics.successful_migrations = self.analytics.successful_migrations + 1;
            self.analytics.total_migrated_value = self.analytics.total_migrated_value + record.amount;
            self.analytics.total_users = self.analytics.total_users + 1;
        } else {
            self.analytics.failed_migrations = self.analytics.failed_migrations + 1;
        }
        id
    }

    /// Records a migration once the source protocol was asked for the funds:
    /// the migration gets the next number and is recorded completed (or failed
    /// with the source's error, which is returned), and the analytics count it.
    /// The source of a migration is `source_contract`; its destination the
    /// configured lending contract.
    pub fn record_migration(&mut self, user: AccountId, protocol: ProtocolType, source_contract: AccountId,
        asset: AccountId, amount: i128, now: u64, pulled: Result<(), MigrationError>) -> (r: Result<u64, MigrationError>)
        requires
            old(self).config is Some,
            old(self).next_id < u64::MAX,
            countable(old(self).analytics, pulled is Ok, amount),
        ensures
            ({
                let rec = MigrationRecord { user, protocol, asset, amount,
                    status: if pulled is Ok { MigrationStatus::Completed } else { MigrationStatus::Failed },
                    timestamp: now, source_pool: source_contract,
                    destination_pool: old(self).config->Some_0.lending_contract, interest_at_migration: 0,
                    is_partial: false, source_position_id: None };
                &&& r == (match pulled { Ok(_) => Ok(old(self).next_id), Err(e) => Err(e) })
                &&& final(self).migrations@ == old(self).migrations@.insert(old(self).next_id, rec)
                &&& final(self).next_id == old(self).next_id + 1
                &&& final(self).analytics == counted(old(self).analytics, pulled is Ok, if pulled is Ok { amount } else { 0 })
            }),
            ids_below(*old(self)) ==> ids_below(*final(self)) && !old(self).migrations@.contains_key(old(self).next_id),
            final(self).admin == old(self).admin && final(self).config == old(self).config,
    {
        let destination = match self.config {
            Some(c) => c.lending_contract,
            None => source_contract,
        };
        let status = if pulled.is_ok() { MigrationStatus::Completed } else { MigrationStatus::Failed };
        let rec = MigrationRecord { user, protocol, asset, amount, status, timestamp: now, source_pool: source_contract,
            destination_pool: destination, interest_at_migration: 0, is_partial: false, source_position_id: None };
        match pulled {
            Ok(_) => {
                let id = self.save(rec, true);
                Ok(id)
            },
            Err(e) => {
                self.save_failed(rec);
                Err(e)
            },
        }
    }

    fn save_failed(&mut self, record: MigrationRecord) -> (id: u64)
        requires
            old(self).next_id < u64::MAX,
            old(self).analytics.failed_migrations < u32::MAX,
        ensures
            id == old(self).next_id,
            final(self).next_id == old(self).next_id + 1,
            final(self).migrations@ == old(self).migrations@.insert(id, record),
            final(self).analytics == counted(old(self).analytics, false, 0),
            final(self).admin == old(self).admin && final(self).config == old(self).config,
            final(self).rollbacks == old(self).rollbacks,
    {
        let id = self.next_id;
        self.next_id = id + 1;
        self.migrations.set(id, record);
        self.analytics.failed_migrations = self.analytics.failed_migrations + 1;
        id
    }

    /// The counters (after initialisation).
    pub fn get_analytics(&self) -> (r: MigrationAnalytics)
        ensures
            r == self.analytics,
    {
        self.analytics
    }

    /// A recorded migration.
    pub fn get_migration(&self, id: u64) -> (r: Option<MigrationRecord>)
        ensures
            r == (if self.migrations@.contains_key(id) { Some(self.migrations@[id]) } else { None }),
    {
        self.migrations.get(&id)
    }

    /// Whether a recorded migration completed; unknown numbers are an error.
    pub fn verify_migration(&self, migration_id: u64) -> (r: Result<bool, MigrationError>)
        ensures
            r == (if self.migrations@.contains_key(migration_id) {
                Ok(self.migrations@[migration_id].status == MigrationStatus::Completed)
            } else { Err(MigrationError::MigrationFailed) }),
    {
        match self.migrations.get(&migration_id) {
            None => Err(MigrationError::MigrationFailed),
            Some(r) => Ok(r.status == MigrationStatus::Completed),
        }
    }

    /// Records a partial migration between pools (percentage in 1..=10 000 bps);
    /// it is recorded completed with no amount.
    pub fn migrate_partial(&mut self, user: AccountId, source_pool: AccountId, destination_pool: AccountId,
        asset: AccountId, percentage: u32, now: u64) -> (r: Result<u64, MigrationError>)
        requires
            0 < percentage <= 10000 && old(self).config is Some ==>
                old(self).next_id < u64::MAX && countable(old(self).analytics, true, 0),
        ensures
            r == (if percentage == 0 || percentage > 10000 { Err(MigrationError::InvalidPercentage) }
                else if old(self).config is None { Err(MigrationError::NotInitialized) }
                else { Ok(old(self).next_id) }),
            r is Err ==> *final(self) == *old(self),
            r is Ok ==> final(self).migrations@ == old(self).migrations@.insert(old(self).next_id, MigrationRecord {
                    user, protocol: ProtocolType::StellarOther, asset, amount: 0, status: MigrationStatus::Completed,
                    timestamp: now, source_pool, destination_pool, interest_at_migration: 0, is_partial: true,
                    source_position_id: None })
                && final(self).next_id == old(self).next_id + 1
                && final(self).analytics == counted(old(self).analytics, true, 0),
            ids_below(*old(self)) ==> ids_below(*final(self)),
    {
        if percentage == 0 || percentage > 10000 {
            return Err(MigrationError::InvalidPercentage);
        }
        if self.config.is_none() {
            return Err(MigrationError::NotInitialized);
        }
        let rec = MigrationRecord { user, protocol: ProtocolType::StellarOther, asset, amount: 0,
            status: MigrationStatus::Completed, timestamp: now, source_pool, destination_pool, interest_at_migration: 0,
            is_partial: true, source_position_id: None };
        let id = self.save(rec, true);
        Ok(id)
    }

    /// Marks a completed migration as failed and records the rollback (admin
    /// only; the admin's authorisation is checked by the caller).
    pub fn emergency_rollback(&mut self, migration_id: u64, reason: String, now: u64) -> (r: Result<(), MigrationError>)
        ensures
            r == (if old(self).admin is None { Err(MigrationError::Unauthorized) }
                else if !old(self).migrations@.contains_key(migration_id) { Err(MigrationError::MigrationFailed) }
                else if old(self).migrations@[migration_id].status != MigrationStatus::Completed { Err(MigrationError::RollbackFailed) }
                else { Ok(()) }),
            r is Err ==> final(self).migrations@ == old(self).migrations@ && final(self).rollbacks@.len() == old(self).rollbacks@.len(),
            r is Ok ==> final(self).migrations@ == old(self).migrations@.insert(migration_id,
                    MigrationRecord { status: MigrationStatus::Failed, ..old(self).migrations@[migration_id] })
                && final(self).rollbacks@.len() == old(self).rollbacks@.len() + 1
                && final(self).rollbacks@.last().migration_id == migration_id
                && final(self).rollbacks@.last().rollback_timestamp == now
                && final(self).rollbacks@.last().success,
            final(self).analytics == old(self).analytics && final(self).next_id == old(self).next_id,
            ids_below(*old(self)) ==> ids_below(*final(self)),
    {
        if self.admin.is_none() {
            return Err(MigrationError::Unauthorized);
        }
        let mut record = match self.migrations.get(&migration_id) {
            None => return Err(MigrationError::MigrationFailed),
            Some(r) => r,
        };
        if record.status != MigrationStatus::Completed {
            return Err(MigrationError::RollbackFailed);
        }
        self.rollbacks.push(EmergencyRollback { migration_id, reason, rollback_timestamp: now, success: true });
        record.status = MigrationStatus::Failed;
        self.migrations.set(migration_id, record);
        Ok(())
    }

    /// Governance-triggered bulk migration (admin only): migrates nothing yet
    /// and reports zero migrations.
    pub fn bulk_migration(&self, source_pool: AccountId, destination_pool: AccountId, asset: AccountId) -> (r: Result<u32, MigrationError>)
        ensures
            r == (if self.admin is None { Err(MigrationError::Unauthorized) } else { Ok(0u32) }),
    {
        if self.admin.is_none() {
            return Err(MigrationError::Unauthorized);
        }
        Ok(0)
    }

    /// A user's migration history; not indexed, so always empty.
    pub fn get_user_migration_history(&self, user: AccountId) -> (r: Vec<MigrationRecord>)
        ensures
            r@.len() == 0,
    {
        Vec::new()
    }
}

/// Preview: gas 50 000, slippage 25 bps, an interest impact of 0.1% of the
/// amount, and the amount less `amount * impact / 10 000`.
pub open spec fn preview_spec(amount: i128) -> MigrationPreview {
    let impact = tdiv(amount as int, 1000);
    MigrationPreview {
        estimated_gas: 50_000,
        estimated_slippage_bps: 25,
        interest_impact: impact as i128,
        expected_output: (amount - tdiv(amount * impact, 10000)) as i128,
    }
}

/// Estimated cost of migrating `amount`.
pub fn preview_migration(user: AccountId, source_pool: AccountId, destination_pool: AccountId, asset: AccountId,
    amount: i128) -> (r: Result<MigrationPreview, MigrationError>)
    requires
        fits_i128(amount * tdiv(amount as int, 1000)),
        fits_i128(amount - tdiv(amount * tdiv(amount as int, 1000), 10000)),
    ensures
        r == Ok::<MigrationPreview, MigrationError>(preview_spec(amount)),
{
    let interest_impact: i128 = amount / 1000;
    let expected_output = amount - (amount * interest_impact / 10000);
    Ok(MigrationPreview { estimated_gas: 50_000, estimated_slippage_bps: 25, interest_impact, expected_output })
}

} // verus!
