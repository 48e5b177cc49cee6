//! Credit scores: an oracle source publishes scores in [0, 1000]; a tier
//! table maps scores to a borrow-limit factor of the collateral; scores older
//! than 30 days are not served; users may dispute and the admin resolves.
use vstd::prelude::*;
use crate::math::{fits_i128, tdiv};
use crate::types::AccountId;
use crate::table::copy_vec;

verus! {

/// Scores older than this are not served (30 days).
pub const SCORE_MAX_AGE_SECONDS: u64 = 2_592_000;

/// A published score.
#[derive(Clone, Copy, Debug, PartialEq, Eq, Structural)]
pub struct CreditScore {
    pub user: AccountId,
    pub score: u32,
    pub timestamp: u64,
    pub borrow_limit: i128,
    /// 0 active, 1 disputed.
    pub status: u32,
}

/// A score band and the share of collateral (bps) that may be borrowed in it.
#[derive(Clone, Copy, Debug, PartialEq, Eq, Structural)]
pub struct CreditTier {
    pub min_score: u32,
    pub max_score: u32,
    pub borrow_limit_factor: u32,
}

/// Abstract state of the credit oracle.
pub struct CreditView {
    pub admin: AccountId,
    pub oracle_source: AccountId,
    pub tiers: Seq<CreditTier>,
    pub scores: Seq<CreditScore>,
}

/// Contract state of the credit oracle.
pub struct CreditOracle {
    pub admin: AccountId,
    pub oracle_source: AccountId,
    pub tiers: Vec<CreditTier>,
    pub scores: Vec<CreditScore>,
}

impl View for CreditOracle {
    type V = CreditView;

    open spec fn view(&self) -> CreditView {
        CreditView { admin: self.admin, oracle_source: self.oracle_source, tiers: self.tiers@, scores: self.scores@ }
    }
}

/// The five tiers: up to 400 nothing, then 25%, 50%, 75% and (851 to 1000) 100%.
pub open spec fn default_tiers() -> Seq<CreditTier> {
    seq![
        CreditTier { min_score: 0, max_score: 400, borrow_limit_factor: 0 },
        CreditTier { min_score: 401, max_score: 600, borrow_limit_factor: 2500 },
        CreditTier { min_score: 601, max_score: 750, borrow_limit_factor: 5000 },
        CreditTier { min_score: 751, max_score: 850, borrow_limit_factor: 7500 },
        CreditTier { min_score: 851, max_score: 1000, borrow_limit_factor: 10000 },
    ]
}

/// Does the tier cover the score?
pub open spec fn covers(t: CreditTier, score: u32) -> bool {
    t.min_score <= score <= t.max_score
}

/// The first tier covering the score.
pub open spec fn find_tier(t: Seq<CreditTier>, score: u32) -> Option<CreditTier>
    decreases t.len(),
{
    if t.len() == 0 {
        None
    } else {
        match find_tier(t.drop_last(), score) {
            Some(x) => Some(x),
            None => if covers(t.last(), score) { Some(t.last()) } else { None },
        }
    }
}

/// The index of the first score of `user`.
pub open spec fn find_user(s: Seq<CreditScore>, user: AccountId) -> Option<int>
    decreases s.len(),
{
    if s.len() == 0 {
        None
    } else {
        match find_user(s.drop_last(), user) {
            Some(i) => Some(i),
            None => if s.last().user == user { Some(s.len() - 1) } else { None },
        }
    }
}

proof fn lemma_find_user_bounds(s: Seq<CreditScore>, user: AccountId)
    ensures
        find_user(s, user) matches Some(i) ==> 0 <= i < s.len() && s[i].user == user,
    decreases s.len(),
{
    if s.len() > 0 {
        lemma_find_user_bounds(s.drop_last(), user);
    }
}

proof fn lemma_find_user_update(s: Seq<CreditScore>, user: AccountId, i: int, x: CreditScore)
    requires
        find_user(s, user) == Some(i),
        x.user == user,
    ensures
        find_user(s.update(i, x), user) == Some(i),
    decreases s.len(),
{
    lemma_find_user_bounds(s, user);
    if i < s.len() - 1 {
        assert(s.update(i, x).drop_last() =~= s.drop_last().update(i, x));
        lemma_find_user_update(s.drop_last(), user, i, x);
    } else {
        assert(s.update(i, x).drop_last() =~= s.drop_last());
    }
}

/// The borrow limit of a score: the collateral times the factor of its tier, in bps.
pub open spec fn limit_spec(collateral_value: i128, tier: CreditTier) -> int {
    tdiv(collateral_value * tier.borrow_limit_factor, 10000)
}

/// A score update is well defined: a covering tier exists and the limit fits.
pub open spec fn update_ok(v: CreditView, score: u32, collateral_value: i128) -> bool {
    &&& score <= 1000
    &&& find_tier(v.tiers, score) is Some
    &&& fits_i128(collateral_value * find_tier(v.tiers, score)->Some_0.borrow_limit_factor)
}

/// The scores after publishing `rec` for its user (replacing the first earlier one).
pub open spec fn upsert(s: Seq<CreditScore>, rec: CreditScore) -> Seq<CreditScore> {
    match find_user(s, rec.user) {
        Some(i) => s.update(i, rec),
        None => s.push(rec),
    }
}

/// The record published by a score update.
pub open spec fn new_record(v: CreditView, user: AccountId, score: u32, collateral_value: i128, now: u64) -> CreditScore {
    CreditScore { user, score, timestamp: now,
        borrow_limit: limit_spec(collateral_value, find_tier(v.tiers, score)->Some_0) as i128, status: 0 }
}

/// The score of `user` served at `now`: present and at most 30 days old.
pub open spec fn served(v: CreditView, user: AccountId, now: u64) -> Option<CreditScore> {
    match find_user(v.scores, user) {
        Some(i) => if now - v.scores[i].timestamp > SCORE_MAX_AGE_SECONDS { None } else { Some(v.scores[i]) },
        None => None,
    }
}

impl CreditOracle {
    /// Sets the admin and the oracle source and installs the default tiers.
    pub fn initialize(admin: AccountId, oracle_source: AccountId) -> (r: Self)
        ensures
            r@.admin == admin && r@.oracle_source == oracle_source,
            r@.tiers == default_tiers(),
            r@.scores.len() == 0,
    {
        let mut tiers: Vec<CreditTier> = Vec::new();
        tiers.push(CreditTier { min_score: 0, max_score: 400, borrow_limit_factor: 0 });
        tiers.push(CreditTier { min_score: 401, max_score: 600, borrow_limit_factor: 2500 });
        tiers.push(CreditTier { min_score: 601, max_score: 750, borrow_limit_factor: 5000 });
        tiers.push(CreditTier { min_score: 751, max_score: 850, borrow_limit_factor: 7500 });
        tiers.push(CreditTier { min_score: 851, max_score: 1000, borrow_limit_factor: 10000 });
        assert(tiers@ =~= default_tiers());
        CreditOracle { admin, oracle_source, tiers, scores: Vec::new() }
    }

    fn tier_for(&self, score: u32) -> (r: Option<CreditTier>)
        ensures
            r == find_tier(self@.tiers, score),
    {
        let n = self.tiers.len();
        let mut i: usize = 0;
        let mut found: Option<CreditTier> = None;
        while i < n
            invariant
                i <= n,
                n == self.tiers@.len(),
                found == find_tier(self.tiers@.take(i as int), score),
            decreases n - i,
        {
            assert(self.tiers@.take(i + 1).drop_last() =~= self.tiers@.take(i as int));
            if found.is_none() {
                let t = self.tiers[i];
                if score >= t.min_score && score <= t.max_score {
                    found = Some(t);
                }
            }
            i = i + 1;
        }
        assert(self.tiers@.take(n as int) =~= self.tiers@);
        found
    }

    fn position(&self, user: AccountId) -> (r: Option<usize>)
        ensures
            r matches Some(i) ==> find_user(self@.scores, user) == Some(i as int),
            r is None ==> find_user(self@.scores, user) is None,
    {
        let n = self.scores.len();
        let mut i: usize = 0;
        let mut found: Option<usize> = None;
        while i < n
            invariant
                i <= n,
                n == self.scores@.len(),
                found matches Some(k) ==> find_user(self.scores@.take(i as int), user) == Some(k as int),
                found is None ==> find_user(self.scores@.take(i as int), user) is None,
            decreases n - i,
        {
            assert(self.scores@.take(i + 1).drop_last() =~= self.scores@.take(i as int));
            if found.is_none() && self.scores[i].user == user {
                found = Some(i);
            }
            i = i + 1;
        }
        assert(self.scores@.take(n as int) =~= self.scores@);
        found
    }

    /// Publishes a score (the oracle source's authorisation is checked by the
    /// caller): the limit is the collateral value times the tier's factor.
    pub fn update_credit_score(&mut self, user: AccountId, score: u32, collateral_value: i128, now: u64)
        requires
            update_ok(old(self)@, score, collateral_value),
        ensures
            final(self)@ == (CreditView { scores: upsert(old(self)@.scores, new_record(old(self)@, user, score, collateral_value, now)), ..old(self)@ }),
    {
        let tier = match self.tier_for(score) {
            Some(t) => t,
            None => { return; },
        };
        let limit = (collateral_value * (tier.borrow_limit_factor as i128)) / 10000i128;
        let rec = CreditScore { user, score, timestamp: now, borrow_limit: limit, status: 0 };
        proof { lemma_find_user_bounds(self@.scores, user); }
        match self.position(user) {
            Some(i) => { self.scores.set(i, rec); },
            None => { self.scores.push(rec); },
        }
    }

    /// The user's score, unless older than 30 days.
    pub fn get_credit_score(&self, user: AccountId, now: u64) -> (r: Option<CreditScore>)
        requires
            find_user(self@.scores, user) matches Some(i) ==> self@.scores[i].timestamp <= now,
        ensures
            r == served(self@, user, now),
    {
        proof { lemma_find_user_bounds(self@.scores, user); }
        match self.position(user) {
            Some(i) => {
                let s = self.scores[i];
                if now - s.timestamp > SCORE_MAX_AGE_SECONDS {
                    None
                } else {
                    Some(s)
                }
            },
            None => None,
        }
    }

    /// The borrow limit of a served score.
    pub fn get_borrow_limit(&self, user: AccountId, now: u64) -> (r: Option<i128>)
        requires
            find_user(self@.scores, user) matches Some(i) ==> self@.scores[i].timestamp <= now,
        ensures
            r == (match served(self@, user, now) { Some(s) => Some(s.borrow_limit), None => None }),
    {
        match self.get_credit_score(user, now) {
            Some(s) => Some(s.borrow_limit),
            None => None,
        }
    }

    /// Whether the user has a score that is served.
    pub fn is_score_fresh(&self, user: AccountId, now: u64) -> (r: bool)
        requires
            find_user(self@.scores, user) matches Some(i) ==> self@.scores[i].timestamp <= now,
        ensures
            r == served(self@, user, now) is Some,
    {
        self.get_credit_score(user, now).is_some()
    }

    fn set_status(&mut self, user: AccountId, status: u32)
        ensures
            final(self)@ == (CreditView { scores: match find_user(old(self)@.scores, user) {
                Some(i) => old(self)@.scores.update(i, CreditScore { status, ..old(self)@.scores[i] }),
                None => old(self)@.scores,
            }, ..old(self)@ }),
    {
        proof { lemma_find_user_bounds(self@.scores, user); }
        if let Some(i) = self.position(user) {
            let mut s = self.scores[i];
            s.status = status;
            self.scores.set(i, s);
        }
    }

    /// Marks the user's score as disputed (the user's authorisation is checked by the caller).
    pub fn dispute_score(&mut self, user: AccountId)
        ensures
            final(self)@ == (CreditView { scores: match find_user(old(self)@.scores, user) {
                Some(i) => old(self)@.scores.update(i, CreditScore { status: 1, ..old(self)@.scores[i] }),
                None => old(self)@.scores,
            }, ..old(self)@ }),
    {
        self.set_status(user, 1);
    }

    /// Resolves a dispute with a new score, published against no collateral
    /// (the admin's authorisation is checked by the caller).
    pub fn resolve_dispute(&mut self, user: AccountId, new_score: u32, now: u64)
        requires
            update_ok(old(self)@, new_score, 0),
        ensures
            final(self)@ == (CreditView { scores: upsert(old(self)@.scores, new_record(old(self)@, user, new_score, 0, now)), ..old(self)@ }),
    {
        self.update_credit_score(user, new_score, 0, now);
        let ghost s1 = self@.scores;
        proof {
            let rec = new_record(old(self)@, user, new_score, 0, now);
            lemma_find_user_bounds(old(self)@.scores, user);
            match find_user(old(self)@.scores, user) {
                Some(i) => lemma_find_user_update(old(self)@.scores, user, i, rec),
                None => {
                    assert(s1.drop_last() =~= old(self)@.scores);
                },
            }
        }
        self.set_status(user, 0);
        proof {
            lemma_find_user_bounds(s1, user);
            let i = find_user(s1, user)->Some_0;
            assert(s1.update(i, CreditScore { status: 0, ..s1[i] }) =~= s1);
        }
    }

    /// All scores, in the order their users were first scored.
    pub fn get_all_scores(&self) -> (r: Vec<CreditScore>)
        ensures
            r@ == self@.scores,
    {
        copy_vec(&self.scores)
    }
}

/// A score update followed by a read within 30 days serves exactly the
/// published record; other users' scores are unaffected.
pub proof fn lemma_update_then_read(v: CreditView, user: AccountId, score: u32, collateral_value: i128, now: u64,
    later: u64, other: AccountId)
    requires
        update_ok(v, score, collateral_value),
        now <= later <= now + SCORE_MAX_AGE_SECONDS,
        other != user,
    ensures
        served(CreditView { scores: upsert(v.scores, new_record(v, user, score, collateral_value, now)), ..v }, user, later)
            == Some(new_record(v, user, score, collateral_value, now)),
        served(CreditView { scores: upsert(v.scores, new_record(v, user, score, collateral_value, now)), ..v }, other, later)
            == served(v, other, later),
{
    let rec = new_record(v, user, score, collateral_value, now);
    lemma_find_user_bounds(v.scores, user);
    lemma_find_user_bounds(v.scores, other);
    match find_user(v.scores, user) {
        Some(i) => {
            lemma_find_user_update(v.scores, user, i, rec);
            lemma_find_user_other_update(v.scores, other, i, rec);
        },
        None => {
            assert(v.scores.push(rec).drop_last() =~= v.scores);
        },
    }
}

proof fn lemma_find_user_other_update(s: Seq<CreditScore>, other: AccountId, i: int, x: CreditScore)
    requires
        0 <= i < s.len(),
        s[i].user != other,
        x.user != other,
    ensures
        find_user(s.update(i, x), other) == find_user(s, other),
    decreases s.len(),
{
    if i < s.len() - 1 {
        assert(s.update(i, x).drop_last() =~= s.drop_last().update(i, x));
        lemma_find_user_other_update(s.drop_last(), other, i, x);
    } else {
        assert(s.update(i, x).drop_last() =~= s.drop_last());
    }
}

/// With the default tiers every score up to 1000 has a tier, and the factor
/// never exceeds 100%, so the limit never exceeds a non-negative collateral.
pub proof fn lemma_default_tiers_cover(score: u32, collateral_value: i128)
    requires
        score <= 1000,
        collateral_value >= 0,
    ensures
        find_tier(default_tiers(), score) is Some,
        0 <= limit_spec(collateral_value, find_tier(default_tiers(), score)->Some_0) <= collateral_value,
{
    let t = default_tiers();
    reveal_with_fuel(find_tier, 6);
    let f = find_tier(t, score)->Some_0.borrow_limit_factor;
    assert(f <= 10000);
    assert(0 <= collateral_value * f <= collateral_value * 10000) by (nonlinear_arith)
        requires f <= 10000, collateral_value >= 0;
    assert((collateral_value * f) / 10000 <= collateral_value);
}

} // verus!
