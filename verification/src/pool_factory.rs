//! Pool factory: registers lending pools with a validated configuration
//! (loan-to-value at most the liquidation threshold, both at most 100%),
//! counts them and lets the admin reconfigure a pool.
use vstd::prelude::*;
use crate::types::AccountId;
use crate::table::copy_vec;

verus! {

/// Configuration of a pool.
#[derive(Copy, Clone, Debug, PartialEq, Eq, Structural)]
pub struct PoolConfig {
    pub asset: AccountId,
    pub oracle: AccountId,
    pub ltv_bps: u32,
    pub liquidation_threshold_bps: u32,
    pub interest_model: AccountId,
}

/// A registered pool.
#[derive(Copy, Clone, Debug, PartialEq, Eq, Structural)]
pub struct Pool {
    pub address: AccountId,
    pub config: PoolConfig,
    pub created_at: u64,
    pub created_by: AccountId,
}

/// Factory state.
pub struct PoolFactory {
    pub admin: Option<AccountId>,
    pub pool_count: u64,
    pub pools: Vec<Pool>,
}

/// A configuration a pool may be created with.
pub open spec fn creatable(ltv_bps: u32, liquidation_threshold_bps: u32) -> bool {
    ltv_bps <= 10000 && liquidation_threshold_bps <= 10000 && ltv_bps <= liquidation_threshold_bps
}

impl PoolFactory {
    /// A factory administered by `admin`, with no pools (the admin's
    /// authorisation is checked by the caller).
    pub fn initialize(admin: AccountId) -> (r: Self)
        ensures
            r.admin == Some(admin) && r.pool_count == 0 && r.pools@.len() == 0,
    {
        PoolFactory { admin: Some(admin), pool_count: 0, pools: Vec::new() }
    }

    /// Registers a pool, created by the factory itself at address
    /// `pool_address`, and returns that address.
    pub fn create_pool(&mut self, asset: AccountId, oracle: AccountId, ltv_bps: u32, liquidation_threshold_bps: u32,
        interest_model: AccountId, pool_address: AccountId, factory: AccountId, now: u64) -> (r: AccountId)
        requires
            creatable(ltv_bps, liquidation_threshold_bps),
            old(self).pool_count < u64::MAX,
        ensures
            r == pool_address,
            final(self).pool_count == old(self).pool_count + 1,
            final(self).pools@ == old(self).pools@.push(Pool { address: pool_address,
                config: PoolConfig { asset, oracle, ltv_bps, liquidation_threshold_bps, interest_model },
                created_at: now, created_by: factory }),
            final(self).admin == old(self).admin,
    {
        let config = PoolConfig { asset, oracle, ltv_bps, liquidation_threshold_bps, interest_model };
        self.pools.push(Pool { address: pool_address, config, created_at: now, created_by: factory });
        self.pool_count = self.pool_count + 1;
        pool_address
    }

    /// Number of pools created.
    pub fn get_pool_count(&self) -> (r: u64)
        ensures
            r == self.pool_count,
    {
        self.pool_count
    }

    /// All pools, in creation order.
    pub fn get_pools(&self) -> (r: Vec<Pool>)
        ensures
            r@ == self.pools@,
    {
        copy_vec(&self.pools)
    }

    /// The pool at a (zero-based) index.
    pub fn get_pool_by_index(&self, index: u32) -> (r: Option<Pool>)
        ensures
            r == (if index < self.pools@.len() { Some(self.pools@[index as int]) } else { None }),
    {
        if (index as usize) < self.pools.len() {
            Some(self.pools[index as usize])
        } else {
            None
        }
    }

    /// Replaces a pool's configuration (the admin's authorisation is checked
    /// by the caller); an unknown index changes nothing.
    pub fn update_pool_config(&mut self, pool_index: u32, config: PoolConfig)
        requires
            old(self).admin is Some,
            config.ltv_bps <= 10000 && config.liquidation_threshold_bps <= 10000,
        ensures
            final(self).pools@ == (if pool_index < old(self).pools@.len() {
                old(self).pools@.update(pool_index as int, Pool { config, ..old(self).pools@[pool_index as int] })
            } else { old(self).pools@ }),
            final(self).pool_count == old(self).pool_count && final(self).admin == old(self).admin,
    {
        if (pool_index as usize) < self.pools.len() {
            let mut pool = self.pools[pool_index as usize];
            pool.config = config;
            self.pools.set(pool_index as usize, pool);
        }
    }
}

} // verus!
