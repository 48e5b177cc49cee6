//! Referral program: a referee registers a referrer once; fees the referee
//! generates earn the referrer a share, and the referrer's own referrer a
//! second-level share; earnings are claimed after a maturity period; tiers
//! grant bonuses by number of referrals. Referral records are kept per
//! referee and statistics per referrer.
use vstd::prelude::*;
use crate::math::{fits_i128, tdiv};
use crate::types::AccountId;
use crate::table::Table;

verus! {

/// Errors of the referral program.
#[derive(Copy, Clone, Debug, PartialEq, Eq, Structural)]
pub enum ReferralError {
    NotInitialized,
    AlreadyInitialized,
    Unauthorized,
    AlreadyRegistered,
    InvalidReferrer,
    SelfReferral,
    NothingToClaim,
    MaturityNotReached,
}

/// A referral and the fees it generated.
#[derive(Copy, Clone, Debug, PartialEq, Eq, Structural)]
pub struct ReferralRecord {
    pub referrer: AccountId,
    pub referee: AccountId,
    pub registered_at: u64,
    pub total_fees_generated: i128,
    pub referrer_earned: i128,
}

/// A referrer's earnings.
#[derive(Copy, Clone, Debug, PartialEq, Eq, Structural)]
pub struct ReferrerStats {
    pub total_referrals: u32,
    pub total_earned: i128,
    pub total_claimed: i128,
    pub claimable: i128,
    pub last_claim_ledger: u64,
    pub l2_referrals: u32,
    pub l2_earned: i128,
}

/// Program parameters.
#[derive(Copy, Clone, Debug, PartialEq, Eq, Structural)]
pub struct ReferralConfig {
    pub admin: AccountId,
    pub fee_share_bps: u32,
    pub l2_fee_share_bps: u32,
    pub maturity_ledgers: u64,
    pub min_deposit_to_qualify: i128,
    pub tier_1_threshold: u32,
    pub tier_1_bonus_bps: u32,
    pub tier_2_threshold: u32,
    pub tier_2_bonus_bps: u32,
}

/// A referrer's tier.
#[derive(Copy, Clone, Debug, PartialEq, Eq, Structural)]
pub struct TierInfo {
    pub tier_level: u32,
    pub bonus_bps: u32,
    pub total_bonus_earned: i128,
}

/// Program state: the referral of each referee and the statistics of each referrer.
pub struct ReferralProgram {
    pub config: Option<ReferralConfig>,
    pub records: Table<AccountId, ReferralRecord>,
    pub stats: Table<AccountId, ReferrerStats>,
}

/// Statistics before anything was recorded.
pub open spec fn empty_stats() -> ReferrerStats {
    ReferrerStats { total_referrals: 0, total_earned: 0, total_claimed: 0, claimable: 0, last_claim_ledger: 0,
        l2_referrals: 0, l2_earned: 0 }
}

/// The statistics of `who` in `m` (empty when none are stored).
pub open spec fn stats_in(m: Map<AccountId, ReferrerStats>, who: AccountId) -> ReferrerStats {
    if m.contains_key(who) { m[who] } else { empty_stats() }
}

/// The statistics of `who`.
pub open spec fn stats_of(p: ReferralProgram, who: AccountId) -> ReferrerStats {
    stats_in(p.stats@, who)
}

/// The referral of `referee` in `m`.
pub open spec fn record_in(m: Map<AccountId, ReferralRecord>, referee: AccountId) -> Option<ReferralRecord> {
    if m.contains_key(referee) { Some(m[referee]) } else { None }
}

/// A share of a fee in bps, truncated.
pub open spec fn share(fee: i128, bps: u32) -> int {
    tdiv(fee * bps, 10_000)
}

/// Earnings are accounted: everything earned is either claimed or claimable.
pub open spec fn balanced(s: ReferrerStats) -> bool {
    s.total_earned == s.total_claimed + s.claimable
}

/// Every referrer's earnings are accounted.
pub open spec fn all_balanced(p: ReferralProgram) -> bool {
    forall|a: AccountId| p.stats@.contains_key(a) ==> #[trigger] balanced(p.stats@[a])
}

/// The record written when `referee` registers `referrer` at `ledger`.
pub open spec fn new_referral(referee: AccountId, referrer: AccountId, ledger: u64) -> ReferralRecord {
    ReferralRecord { referrer, referee, registered_at: ledger, total_fees_generated: 0, referrer_earned: 0 }
}

/// Statistics after a registration: the referrer gains a referral, then the
/// referrer's own referrer (if the referrer was referred) gains a second-level one.
pub open spec fn registered_stats(m: Map<AccountId, ReferrerStats>, recs: Map<AccountId, ReferralRecord>, referrer: AccountId)
    -> Map<AccountId, ReferrerStats>
{
    let s = stats_in(m, referrer);
    let m1 = m.insert(referrer, ReferrerStats { total_referrals: (s.total_referrals + 1) as u32, ..s });
    match record_in(recs, referrer) {
        Some(up) => {
            let u = stats_in(m1, up.referrer);
            m1.insert(up.referrer, ReferrerStats { l2_referrals: (u.l2_referrals + 1) as u32, ..u })
        },
        None => m1,
    }
}

/// A registration cannot overflow the counters it increments.
pub open spec fn registration_fits(p: ReferralProgram, referee: AccountId, referrer: AccountId, ledger: u64) -> bool {
    let recs = p.records@.insert(referee, new_referral(referee, referrer, ledger));
    let s = stats_of(p, referrer);
    let m1 = p.stats@.insert(referrer, ReferrerStats { total_referrals: (s.total_referrals + 1) as u32, ..s });
    &&& s.total_referrals < u32::MAX
    &&& (record_in(recs, referrer) matches Some(up) ==> stats_in(m1, up.referrer).l2_referrals < u32::MAX)
}

/// Statistics after a fee of `fee` accrues through `rec` (already updated):
/// the referrer earns its first-level share, then the referrer's own referrer
/// (if any) a positive second-level share.
pub open spec fn accrued_stats(m: Map<AccountId, ReferrerStats>, recs: Map<AccountId, ReferralRecord>, c: ReferralConfig,
    rec: ReferralRecord, fee: i128) -> Map<AccountId, ReferrerStats>
{
    let l1 = share(fee, c.fee_share_bps);
    let s = stats_in(m, rec.referrer);
    let m1 = m.insert(rec.referrer, ReferrerStats { total_earned: (s.total_earned + l1) as i128,
        claimable: (s.claimable + l1) as i128, ..s });
    let l2 = share(fee, c.l2_fee_share_bps);
    match record_in(recs, rec.referrer) {
        Some(up) => if l2 > 0 {
            let u = stats_in(m1, up.referrer);
            m1.insert(up.referrer, ReferrerStats { l2_earned: (u.l2_earned + l2) as i128,
                total_earned: (u.total_earned + l2) as i128, claimable: (u.claimable + l2) as i128, ..u })
        } else {
            m1
        },
        None => m1,
    }
}

/// The referral record after a fee accrues through it.
pub open spec fn accrued_record(rec: ReferralRecord, c: ReferralConfig, fee: i128) -> ReferralRecord {
    ReferralRecord { total_fees_generated: (rec.total_fees_generated + fee) as i128,
        referrer_earned: (rec.referrer_earned + share(fee, c.fee_share_bps)) as i128, ..rec }
}

/// Accruing a fee through the referral of `referee` stays within `i128`.
pub open spec fn accrual_fits(p: ReferralProgram, referee: AccountId, fee: i128) -> bool {
    let c = p.config->Some_0;
    let r = p.records@[referee];
    let l1 = share(fee, c.fee_share_bps);
    let l2 = share(fee, c.l2_fee_share_bps);
    let s = stats_of(p, r.referrer);
    let recs = p.records@.insert(referee, accrued_record(r, c, fee));
    let m1 = p.stats@.insert(r.referrer, ReferrerStats { total_earned: (s.total_earned + l1) as i128,
        claimable: (s.claimable + l1) as i128, ..s });
    &&& fits_i128(fee * c.fee_share_bps)
    &&& fits_i128(r.total_fees_generated + fee) && fits_i128(r.referrer_earned + l1)
    &&& fits_i128(s.total_earned + l1) && fits_i128(s.claimable + l1)
    &&& (record_in(recs, r.referrer) is Some ==> fits_i128(fee * c.l2_fee_share_bps))
    &&& (record_in(recs, r.referrer) is Some && l2 > 0 ==> {
        let u = stats_in(m1, record_in(recs, r.referrer)->Some_0.referrer);
        fits_i128(u.l2_earned + l2) && fits_i128(u.total_earned + l2) && fits_i128(u.claimable + l2)
    })
}

impl ReferralProgram {
    /// A program that has not been initialised.
    pub fn new() -> (r: Self)
        ensures
            r.config is None,
            r.records@ == Map::<AccountId, ReferralRecord>::empty(),
            r.stats@ == Map::<AccountId, ReferrerStats>::empty(),
            all_balanced(r),
    {
        ReferralProgram { config: None, records: Table::new(), stats: Table::new() }
    }

    /// Configures the program, once (the admin's authorisation is checked by the caller).
    pub fn initialize(&mut self, config: ReferralConfig) -> (r: Result<(), ReferralError>)
        ensures
            r == (if old(self).config is Some { Err(ReferralError::AlreadyInitialized) } else { Ok(()) }),
            final(self).config == (if r is Ok { Some(config) } else { old(self).config }),
            final(self).records@ == old(self).records@,
            final(self).stats@ == old(self).stats@,
    {
        if self.config.is_some() {
            return Err(ReferralError::AlreadyInitialized);
        }
        self.config = Some(config);
        Ok(())
    }

    fn stats_for(&self, who: AccountId) -> (r: ReferrerStats)
        ensures
            r == stats_of(*self, who),
    {
        match self.stats.get(&who) {
            Some(s) => s,
            None => ReferrerStats { total_referrals: 0, total_earned: 0, total_claimed: 0, claimable: 0,
                last_claim_ledger: 0, l2_referrals: 0, l2_earned: 0 },
        }
    }

    /// Registers `referee` as referred by `referrer` (the referee's
    /// authorisation is checked by the caller): the referrer gains a referral
    /// and, when the referrer was referred in turn, its own referrer a
    /// second-level referral.
    pub fn register_referral(&mut self, referee: AccountId, referrer: AccountId, ledger: u64) -> (r: Result<(), ReferralError>)
        requires
            old(self).config is Some && referee != referrer && !old(self).records@.contains_key(referee)
                ==> registration_fits(*old(self), referee, referrer, ledger),
        ensures
            r == (if old(self).config is None { Err(ReferralError::NotInitialized) }
                else if referee == referrer { Err(ReferralError::SelfReferral) }
                else if old(self).records@.contains_key(referee) { Err(ReferralError::AlreadyRegistered) }
                else { Ok(()) }),
            final(self).config == old(self).config,
            r is Err ==> final(self).records@ == old(self).records@ && final(self).stats@ == old(self).stats@,
            r is Ok ==> final(self).records@ == old(self).records@.insert(referee, new_referral(referee, referrer, ledger))
                && final(self).stats@ == registered_stats(old(self).stats@, final(self).records@, referrer),
            all_balanced(*old(self)) ==> all_balanced(*final(self)),
    {
        if self.config.is_none() {
            return Err(ReferralError::NotInitialized);
        }
        if referee == referrer {
            return Err(ReferralError::SelfReferral);
        }
        if self.records.contains(&referee) {
            return Err(ReferralError::AlreadyRegistered);
        }
        let ghost p0 = *self;
        self.records.set(referee, ReferralRecord { referrer, referee, registered_at: ledger, total_fees_generated: 0, referrer_earned: 0 });
        let mut stats = self.stats_for(referrer);
        stats.total_referrals = stats.total_referrals + 1;
        self.stats.set(referrer, stats);
        match self.records.get(&referrer) {
            Some(up) => {
                let mut u = self.stats_for(up.referrer);
                u.l2_referrals = u.l2_referrals + 1;
                self.stats.set(up.referrer, u);
            },
            None => {},
        }
        proof {
            assert forall|a: AccountId| all_balanced(p0) && self.stats@.contains_key(a) implies #[trigger] balanced(self.stats@[a]) by {
                if p0.stats@.contains_key(a) {
                    assert(balanced(p0.stats@[a]));
                }
            }
        }
        Ok(())
    }

    /// Accrues a fee generated by `referee`: its referrer earns the
    /// first-level share, and the referrer's own referrer (if any) a positive
    /// second-level share.
    pub fn accrue_fee(&mut self, referee: AccountId, fee_amount: i128) -> (r: Result<(), ReferralError>)
        requires
            old(self).config is Some && old(self).records@.contains_key(referee) ==> accrual_fits(*old(self), referee, fee_amount),
        ensures
            r == (if old(self).config is None { Err(ReferralError::NotInitialized) }
                else if !old(self).records@.contains_key(referee) { Err(ReferralError::InvalidReferrer) } else { Ok(()) }),
            final(self).config == old(self).config,
            r is Err ==> final(self).records@ == old(self).records@ && final(self).stats@ == old(self).stats@,
            r is Ok ==> ({
                let c = old(self).config->Some_0;
                let rec = accrued_record(old(self).records@[referee], c, fee_amount);
                &&& final(self).records@ == old(self).records@.insert(referee, rec)
                &&& final(self).stats@ == accrued_stats(old(self).stats@, final(self).records@, c, rec, fee_amount)
            }),
            all_balanced(*old(self)) ==> all_balanced(*final(self)),
    {
        let config = match self.config {
            None => return Err(ReferralError::NotInitialized),
            Some(c) => c,
        };
        let mut record = match self.records.get(&referee) {
            None => return Err(ReferralError::InvalidReferrer),
            Some(r) => r,
        };
        let ghost p0 = *self;
        let l1_share = (fee_amount * (config.fee_share_bps as i128)) / 10_000;
        record.total_fees_generated = record.total_fees_generated + fee_amount;
        record.referrer_earned = record.referrer_earned + l1_share;
        self.records.set(referee, record);
        let mut stats = self.stats_for(record.referrer);
        stats.total_earned = stats.total_earned + l1_share;
        stats.claimable = stats.claimable + l1_share;
        self.stats.set(record.referrer, stats);
        match self.records.get(&record.referrer) {
            Some(up) => {
                let l2_share = (fee_amount * (config.l2_fee_share_bps as i128)) / 10_000;
                if l2_share > 0 {
                    let mut u = self.stats_for(up.referrer);
                    u.l2_earned = u.l2_earned + l2_share;
                    u.total_earned = u.total_earned + l2_share;
                    u.claimable = u.claimable + l2_share;
                    self.stats.set(up.referrer, u);
                }
            },
            None => {},
        }
        proof {
            assert forall|a: AccountId| all_balanced(p0) && self.stats@.contains_key(a) implies #[trigger] balanced(self.stats@[a]) by {
                if p0.stats@.contains_key(a) {
                    assert(balanced(p0.stats@[a]));
                }
            }
        }
        Ok(())
    }

    /// Pays out everything the referrer can claim, at most once per maturity
    /// period (the referrer's authorisation is checked by the caller).
    pub fn claim(&mut self, referrer: AccountId, ledger: u64) -> (r: Result<i128, ReferralError>)
        requires
            ({
                let s = stats_of(*old(self), referrer);
                old(self).config is Some && s.claimable > 0 ==>
                    (s.last_claim_ledger > 0 ==> s.last_claim_ledger + old(self).config->Some_0.maturity_ledgers <= u64::MAX)
            }),
            ({
                let s = stats_of(*old(self), referrer);
                old(self).config is Some && s.claimable > 0 ==> fits_i128(s.total_claimed + s.claimable)
            }),
        ensures
            ({
                let s = stats_of(*old(self), referrer);
                &&& r == (if old(self).config is None { Err(ReferralError::NotInitialized) }
                    else if s.claimable <= 0 { Err(ReferralError::NothingToClaim) }
                    else if s.last_claim_ledger > 0 && ledger < s.last_claim_ledger + old(self).config->Some_0.maturity_ledgers {
                        Err(ReferralError::MaturityNotReached) }
                    else { Ok(s.claimable) })
                &&& final(self).config == old(self).config && final(self).records@ == old(self).records@
                &&& r is Err ==> final(self).stats@ == old(self).stats@
                &&& r is Ok ==> final(self).stats@ == old(self).stats@.insert(referrer, ReferrerStats {
                        total_claimed: (s.total_claimed + s.claimable) as i128, claimable: 0, last_claim_ledger: ledger, ..s })
            }),
            all_balanced(*old(self)) ==> all_balanced(*final(self)),
    {
        let config = match self.config {
            None => return Err(ReferralError::NotInitialized),
            Some(c) => c,
        };
        let mut stats = self.stats_for(referrer);
        if stats.claimable <= 0 {
            return Err(ReferralError::NothingToClaim);
        }
        if stats.last_claim_ledger > 0 && ledger < stats.last_claim_ledger + config.maturity_ledgers {
            return Err(ReferralError::MaturityNotReached);
        }
        let ghost p0 = *self;
        let amount = stats.claimable;
        stats.total_claimed = stats.total_claimed + amount;
        stats.claimable = 0;
        stats.last_claim_ledger = ledger;
        self.stats.set(referrer, stats);
        proof {
            assert forall|a: AccountId| all_balanced(p0) && self.stats@.contains_key(a) implies #[trigger] balanced(self.stats@[a]) by {
                if p0.stats@.contains_key(a) {
                    assert(balanced(p0.stats@[a]));
                }
            }
        }
        Ok(amount)
    }

    /// The statistics of a referrer.
    pub fn get_referrer_stats(&self, referrer: AccountId) -> (r: ReferrerStats)
        ensures
            r == stats_of(*self, referrer),
    {
        self.stats_for(referrer)
    }

    /// The referral of a referee.
    pub fn get_referral(&self, referee: AccountId) -> (r: Option<ReferralRecord>)
        ensures
            r == record_in(self.records@, referee),
    {
        self.records.get(&referee)
    }

    /// The configuration.
    pub fn get_config_view(&self) -> (r: Result<ReferralConfig, ReferralError>)
        ensures
            r == (match self.config { Some(c) => Ok(c), None => Err(ReferralError::NotInitialized) }),
    {
        match self.config {
            Some(c) => Ok(c),
            None => Err(ReferralError::NotInitialized),
        }
    }

    /// The tier outcome of `get_tier_info` for `referrer`.
    pub open spec fn get_tier_spec(&self, referrer: AccountId) -> Result<TierInfo, ReferralError> {
        match self.config {
            None => Err(ReferralError::NotInitialized),
            Some(c) => {
                let s = stats_of(*self, referrer);
                let (level, bonus) = if s.total_referrals >= c.tier_2_threshold { (2u32, c.tier_2_bonus_bps) }
                    else if s.total_referrals >= c.tier_1_threshold { (1u32, c.tier_1_bonus_bps) } else { (0u32, 0u32) };
                Ok(TierInfo { tier_level: level, bonus_bps: bonus, total_bonus_earned: share(s.total_earned, bonus) as i128 })
            },
        }
    }

    /// The bonus products of a referrer's earnings fit `i128`.
    pub open spec fn tier_fits(&self, referrer: AccountId) -> bool {
        self.config is Some ==> fits_i128(stats_of(*self, referrer).total_earned * self.config->Some_0.tier_1_bonus_bps)
            && fits_i128(stats_of(*self, referrer).total_earned * self.config->Some_0.tier_2_bonus_bps)
    }

    /// The tier a referrer reached by number of referrals and the bonus it
    /// implies on what it earned.
    pub fn get_tier_info(&self, referrer: AccountId) -> (r: Result<TierInfo, ReferralError>)
        requires
            self.tier_fits(referrer),
        ensures
            r == self.get_tier_spec(referrer),
    {
        let config = match self.config {
            None => return Err(ReferralError::NotInitialized),
            Some(c) => c,
        };
        let stats = self.stats_for(referrer);
        let (tier_level, bonus_bps): (u32, u32) = if stats.total_referrals >= config.tier_2_threshold {
            (2, config.tier_2_bonus_bps)
        } else if stats.total_referrals >= config.tier_1_threshold {
            (1, config.tier_1_bonus_bps)
        } else {
            (0, 0)
        };
        assert(bonus_bps == config.tier_1_bonus_bps || bonus_bps == config.tier_2_bonus_bps || bonus_bps == 0);
        assert(fits_i128(stats.total_earned * bonus_bps)) by (nonlinear_arith)
            requires
                bonus_bps == config.tier_1_bonus_bps || bonus_bps == config.tier_2_bonus_bps || bonus_bps == 0,
                fits_i128(stats.total_earned * config.tier_1_bonus_bps),
                fits_i128(stats.total_earned * config.tier_2_bonus_bps);
        let total_bonus_earned = (stats.total_earned * (bonus_bps as i128)) / 10_000;
        Ok(TierInfo { tier_level, bonus_bps, total_bonus_earned })
    }

    /// Anti-sybil check: a referrer qualifies with at least the minimum deposit.
    pub fn validate_referrer_eligibility(&self, referrer: AccountId, total_deposit: i128) -> (r: Result<bool, ReferralError>)
        ensures
            r == (match self.config { None => Err(ReferralError::NotInitialized),
                Some(c) => Ok(total_deposit >= c.min_deposit_to_qualify) }),
    {
        match self.config {
            None => Err(ReferralError::NotInitialized),
            Some(c) => Ok(total_deposit >= c.min_deposit_to_qualify),
        }
    }

    /// A referrer's statistics and tier together.
    pub fn get_dashboard_metrics(&self, referrer: AccountId) -> (r: Result<(ReferrerStats, TierInfo), ReferralError>)
        requires
            self.tier_fits(referrer),
        ensures
            r == (match self.get_tier_spec(referrer) {
                Ok(t) => Ok((stats_of(*self, referrer), t)),
                Err(e) => Err(e),
            }),
    {
        if self.config.is_none() {
            return Err(ReferralError::NotInitialized);
        }
        let stats = self.stats_for(referrer);
        let tier = self.get_tier_info(referrer)?;
        Ok((stats, tier))
    }
}

/// Accruing a fee changes the statistics of the referee's referrer and of that
/// referrer's own referrer only.
pub proof fn lemma_accrual_touches_two_referrers(m: Map<AccountId, ReferrerStats>, recs: Map<AccountId, ReferralRecord>,
    c: ReferralConfig, rec: ReferralRecord, fee: i128, other: AccountId)
    requires
        other != rec.referrer,
        record_in(recs, rec.referrer) matches Some(up) ==> other != up.referrer,
    ensures
        stats_in(accrued_stats(m, recs, c, rec, fee), other) == stats_in(m, other),
{
}

/// The share code of a referrer (the same for everyone).
pub fn get_referral_code(referrer: AccountId) -> (r: Option<String>)
    ensures
        r matches Some(s) && s@ == "ref01"@,
{
    Some("ref01".to_owned())
}

} // verus!
