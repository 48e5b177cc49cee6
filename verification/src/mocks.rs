//! Test doubles of a token and a price oracle, as deployed in tests.
use vstd::prelude::*;
use crate::math::fits_i128;
use crate::types::AccountId;
use crate::table::Table;

verus! {

/// A token with minting and burning and a transfer that moves nothing.
pub struct MockToken {
    pub admin: AccountId,
    pub decimal: u32,
    pub name: String,
    pub symbol: String,
    pub balances: Table<AccountId, i128>,
}

/// The balance of an account (0 when never credited).
pub open spec fn balance_of(t: MockToken, id: AccountId) -> i128 {
    if t.balances@.contains_key(id) { t.balances@[id] } else { 0 }
}

impl MockToken {
    /// A token with the given metadata and no balances.
    pub fn initialize(admin: AccountId, decimal: u32, name: String, symbol: String) -> (r: Self)
        ensures
            r.admin == admin && r.decimal == decimal && r.name@ == name@ && r.symbol@ == symbol@,
            r.balances@ == Map::<AccountId, i128>::empty(),
    {
        MockToken { admin, decimal, name, symbol, balances: Table::new() }
    }

    /// The balance of an account.
    pub fn balance(&self, id: AccountId) -> (r: i128)
        ensures
            r == balance_of(*self, id),
    {
        match self.balances.get(&id) {
            Some(b) => b,
            None => 0,
        }
    }

    /// Transfers nothing.
    pub fn transfer(&self, from: AccountId, to: AccountId, amount: i128) {
    }

    /// Credits an account.
    pub fn mint(&mut self, to: AccountId, amount: i128)
        requires
            fits_i128(balance_of(*old(self), to) + amount),
        ensures
            final(self).balances@ == old(self).balances@.insert(to, (balance_of(*old(self), to) + amount) as i128),
    {
        let b = self.balance(to);
        self.balances.set(to, b + amount);
    }

    /// Debits an account (balances may go negative).
    pub fn burn(&mut self, from: AccountId, amount: i128)
        requires
            fits_i128(balance_of(*old(self), from) - amount),
        ensures
            final(self).balances@ == old(self).balances@.insert(from, (balance_of(*old(self), from) - amount) as i128),
    {
        let b = self.balance(from);
        self.balances.set(from, b - amount);
    }
}

/// An oracle quoting a constant price; stored prices are not read back.
pub struct MockOracle {
    pub admin: AccountId,
    pub prices: Table<AccountId, i128>,
}

impl MockOracle {
    /// An oracle with no stored prices.
    pub fn initialize(admin: AccountId) -> (r: Self)
        ensures
            r.admin == admin && r.prices@ == Map::<AccountId, i128>::empty(),
    {
        MockOracle { admin, prices: Table::new() }
    }

    /// The quoted price: always 1 000 000.
    pub fn get_price(&self, asset: AccountId) -> (r: i128)
        ensures
            r == 1_000_000,
    {
        1_000_000
    }

    /// Stores a price.
    pub fn set_price(&mut self, asset: AccountId, price: i128)
        ensures
            final(self).prices@ == old(self).prices@.insert(asset, price),
    {
        self.prices.set(asset, price);
    }

    /// The last update time: always 0.
    pub fn get_last_updated(&self, asset: AccountId) -> (r: u64)
        ensures
            r == 0,
    {
        0
    }
}

} // verus!
