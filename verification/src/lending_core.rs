//! Core lending contract state: a protocol configuration set once by its
//! admin, and each user's position.
use vstd::prelude::*;
use crate::types::{AccountId, CommonError, Position, ProtocolConfig};
use crate::table::Table;

verus! {

/// Core contract state.
pub struct LendingCoreContract {
    pub config: Option<ProtocolConfig>,
    pub positions: Table<AccountId, Position>,
}

impl LendingCoreContract {
    /// A contract that has not been initialised.
    pub fn new() -> (r: Self)
        ensures
            r.config is None,
            r.positions@ == Map::<AccountId, Position>::empty(),
    {
        LendingCoreContract { config: None, positions: Table::new() }
    }

    /// Sets the configuration once: no oracle, the given debt ceiling, a
    /// minimum borrow of 100 and an 80% liquidation threshold.
    pub fn initialize(&mut self, admin: AccountId, debt_ceiling: i128) -> (r: Result<(), CommonError>)
        ensures
            r == (if old(self).config is Some { Err(CommonError::Unauthorized) } else { Ok(()) }),
            final(self).config == (if r is Ok {
                Some(ProtocolConfig { admin, oracle: None, debt_ceiling, min_borrow_amount: 100, liquidation_threshold_bps: 8_000 })
            } else { old(self).config }),
            final(self).positions@ == old(self).positions@,
    {
        if self.config.is_some() {
            return Err(CommonError::Unauthorized);
        }
        self.config = Some(ProtocolConfig { admin, oracle: None, debt_ceiling, min_borrow_amount: 100, liquidation_threshold_bps: 8_000 });
        Ok(())
    }

    /// The admin, once initialised.
    pub fn get_admin(&self) -> (r: Option<AccountId>)
        ensures
            r == (match self.config { Some(c) => Some(c.admin), None => None }),
    {
        match self.config {
            Some(c) => Some(c.admin),
            None => None,
        }
    }

    /// A user's position.
    pub fn get_position(&self, user: AccountId) -> (r: Option<Position>)
        ensures
            r == (if self.positions@.contains_key(user) { Some(self.positions@[user]) } else { None }),
    {
        self.positions.get(&user)
    }

    /// Stores a user's position.
    pub fn update_position(&mut self, user: AccountId, position: Position) -> (r: Result<(), CommonError>)
        ensures
            r is Ok,
            final(self).positions@ == old(self).positions@.insert(user, position),
            final(self).config == old(self).config,
    {
        self.positions.set(user, position);
        Ok(())
    }
}

} // verus!
