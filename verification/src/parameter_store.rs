//! Risk parameters under governance: changes are proposed with a timelock (at
//! least 48 hours for loan-to-value and liquidation threshold, 24 hours for
//! the others), accepted only once the timelock has elapsed, or rejected; each
//! accepted change is recorded in the parameter's history. The governance
//! account's authorisation is checked around this logic.
use vstd::prelude::*;
use crate::types::AccountId;
use crate::table::Table;

verus! {

/// The governed parameters.
#[derive(Copy, Clone, Debug, PartialEq, Eq, Structural)]
pub enum ParameterType {
    LTV,
    LiquidationThreshold,
    InterestRateSlope1,
    InterestRateSlope2,
    BaseInterestRate,
    ReserveFactor,
}

/// An accepted change.
#[derive(Copy, Clone, Debug, PartialEq, Eq, Structural)]
pub struct ParameterChange {
    pub parameter: ParameterType,
    pub old_value: i128,
    pub new_value: i128,
    pub timestamp: u64,
    pub effective_at: u64,
}

/// A proposed change.
#[derive(Copy, Clone, Debug, PartialEq, Eq, Structural)]
pub struct ParameterProposal {
    pub id: u64,
    pub parameter: ParameterType,
    pub proposed_value: i128,
    pub proposer: AccountId,
    pub created_at: u64,
    pub effective_at: u64,
    pub accepted: bool,
    pub rejected: bool,
}

/// Minimum timelock of a parameter: 48 hours for loan-to-value and the
/// liquidation threshold, 24 hours otherwise.
pub open spec fn min_timelock_spec(p: ParameterType) -> u64 {
    match p {
        ParameterType::LTV | ParameterType::LiquidationThreshold => 172_800,
        _ => 86_400,
    }
}

/// Minimum timelock of a parameter.
pub fn min_timelock(p: ParameterType) -> (r: u64)
    ensures
        r == min_timelock_spec(p),
{
    match p {
        ParameterType::LTV | ParameterType::LiquidationThreshold => 48 * 3600,
        _ => 24 * 3600,
    }
}

/// Storage index of a parameter.
pub open spec fn param_key_spec(p: ParameterType) -> u64 {
    match p {
        ParameterType::LTV => 0,
        ParameterType::LiquidationThreshold => 1,
        ParameterType::InterestRateSlope1 => 2,
        ParameterType::InterestRateSlope2 => 3,
        ParameterType::BaseInterestRate => 4,
        ParameterType::ReserveFactor => 5,
    }
}

fn param_key(p: ParameterType) -> (r: u64)
    ensures
        r == param_key_spec(p),
{
    match p {
        ParameterType::LTV => 0,
        ParameterType::LiquidationThreshold => 1,
        ParameterType::InterestRateSlope1 => 2,
        ParameterType::InterestRateSlope2 => 3,
        ParameterType::BaseInterestRate => 4,
        ParameterType::ReserveFactor => 5,
    }
}

/// Parameter store state; accepted changes are logged in order.
pub struct ParameterStoreContract {
    pub governance: AccountId,
    pub admin: AccountId,
    pub counter: u64,
    pub proposals: Table<u64, ParameterProposal>,
    pub parameters: Table<u64, i128>,
    pub history: Vec<ParameterChange>,
}

/// Every stored proposal is numbered within the counter, respects its
/// parameter's minimum timelock and a non-negative value, and was decided
/// at most one way.
pub open spec fn store_wf(s: ParameterStoreContract) -> bool {
    forall|id: u64| #[trigger] s.proposals@.contains_key(id) ==> {
        let p = s.proposals@[id];
        &&& 1 <= id <= s.counter && p.id == id
        &&& p.effective_at >= p.created_at + min_timelock_spec(p.parameter)
        &&& p.proposed_value >= 0
        &&& !(p.accepted && p.rejected)
    }
}

/// The current value of a parameter (0 when never set).
pub open spec fn param_value(s: ParameterStoreContract, p: ParameterType) -> i128 {
    if s.parameters@.contains_key(param_key_spec(p)) { s.parameters@[param_key_spec(p)] } else { 0 }
}

/// The changes of one parameter, in order.
pub open spec fn history_of(h: Seq<ParameterChange>, p: ParameterType) -> Seq<ParameterChange>
    decreases h.len(),
{
    if h.len() == 0 {
        Seq::empty()
    } else if h.last().parameter == p {
        history_of(h.drop_last(), p).push(h.last())
    } else {
        history_of(h.drop_last(), p)
    }
}

impl ParameterStoreContract {
    /// Sets governance and admin; no proposals yet.
    pub fn initialize(governance: AccountId, admin: AccountId) -> (r: Self)
        ensures
            r.governance == governance && r.admin == admin && r.counter == 0,
            r.proposals@ == Map::<u64, ParameterProposal>::empty(),
            r.parameters@ == Map::<u64, i128>::empty(),
            r.history@.len() == 0,
            store_wf(r),
    {
        ParameterStoreContract { governance, admin, counter: 0, proposals: Table::new(), parameters: Table::new(), history: Vec::new() }
    }

    /// Proposes a change taking effect after `timelock_seconds` (which must
    /// meet the parameter's minimum; the value must be non-negative).
    pub fn propose_change(&mut self, parameter: ParameterType, value: i128, timelock_seconds: u64, now: u64) -> (id: u64)
        requires
            store_wf(*old(self)),
            old(self).counter < u64::MAX,
            now + timelock_seconds <= u64::MAX,
            timelock_seconds >= min_timelock_spec(parameter),
            value >= 0,
        ensures
            store_wf(*final(self)),
            id == old(self).counter + 1,
            final(self).counter == id,
            final(self).proposals@ == old(self).proposals@.insert(id, ParameterProposal { id, parameter, proposed_value: value,
                proposer: old(self).governance, created_at: now, effective_at: (now + timelock_seconds) as u64,
                accepted: false, rejected: false }),
            final(self).parameters@ == old(self).parameters@,
            final(self).history@ == old(self).history@,
            final(self).governance == old(self).governance,
    {
        let id = self.counter + 1;
        let effective_at = now + timelock_seconds;
        self.proposals.set(id, ParameterProposal { id, parameter, proposed_value: value, proposer: self.governance,
            created_at: now, effective_at, accepted: false, rejected: false });
        self.counter = id;
        id
    }

    /// Accepts an undecided proposal whose timelock has elapsed: the parameter
    /// takes the proposed value and the change is logged.
    pub fn accept_proposal(&mut self, proposal_id: u64, now: u64)
        requires
            store_wf(*old(self)),
            old(self).proposals@.contains_key(proposal_id),
            now >= old(self).proposals@[proposal_id].effective_at,
            !old(self).proposals@[proposal_id].accepted && !old(self).proposals@[proposal_id].rejected,
        ensures
            store_wf(*final(self)),
            ({
                let p = old(self).proposals@[proposal_id];
                &&& final(self).proposals@ == old(self).proposals@.insert(proposal_id, ParameterProposal { accepted: true, ..p })
                &&& final(self).parameters@ == old(self).parameters@.insert(param_key_spec(p.parameter), p.proposed_value)
                &&& final(self).history@ == old(self).history@.push(ParameterChange { parameter: p.parameter,
                        old_value: param_value(*old(self), p.parameter), new_value: p.proposed_value, timestamp: now,
                        effective_at: p.effective_at })
            }),
            final(self).counter == old(self).counter && final(self).governance == old(self).governance,
    {
        let mut p = self.proposals.get(&proposal_id).unwrap();
        let key = param_key(p.parameter);
        let old_value = match self.parameters.get(&key) { Some(v) => v, None => 0 };
        p.accepted = true;
        self.proposals.set(proposal_id, p);
        self.parameters.set(key, p.proposed_value);
        self.history.push(ParameterChange { parameter: p.parameter, old_value, new_value: p.proposed_value, timestamp: now,
            effective_at: p.effective_at });
    }

    /// Rejects an undecided proposal.
    pub fn reject_proposal(&mut self, proposal_id: u64)
        requires
            store_wf(*old(self)),
            old(self).proposals@.contains_key(proposal_id),
            !old(self).proposals@[proposal_id].accepted && !old(self).proposals@[proposal_id].rejected,
        ensures
            store_wf(*final(self)),
            final(self).proposals@ == old(self).proposals@.insert(proposal_id,
                ParameterProposal { rejected: true, ..old(self).proposals@[proposal_id] }),
            final(self).parameters@ == old(self).parameters@,
            final(self).history@ == old(self).history@,
            final(self).counter == old(self).counter,
    {
        let mut p = self.proposals.get(&proposal_id).unwrap();
        p.rejected = true;
        self.proposals.set(proposal_id, p);
    }

    /// The current value of a parameter.
    pub fn get_parameter(&self, parameter: ParameterType) -> (r: i128)
        ensures
            r == param_value(*self, parameter),
    {
        match self.parameters.get(&param_key(parameter)) {
            Some(v) => v,
            None => 0,
        }
    }

    /// A stored proposal.
    pub fn get_proposal(&self, proposal_id: u64) -> (r: ParameterProposal)
        requires
            self.proposals@.contains_key(proposal_id),
        ensures
            r == self.proposals@[proposal_id],
    {
        self.proposals.get(&proposal_id).unwrap()
    }

    /// The accepted changes of a parameter, in order.
    pub fn get_change_history(&self, parameter: ParameterType) -> (r: Vec<ParameterChange>)
        ensures
            r@ == history_of(self.history@, parameter),
    {
        let mut r: Vec<ParameterChange> = Vec::new();
        let mut i: usize = 0;
        while i < self.history.len()
            invariant
                i <= self.history@.len(),
                r@ == history_of(self.history@.take(i as int), parameter),
            decreases self.history@.len() - i,
        {
            assert(self.history@.take(i + 1).drop_last() =~= self.history@.take(i as int));
            let c = self.history[i];
            if c.parameter == parameter {
                r.push(c);
            }
            i = i + 1;
        }
        assert(self.history@.take(self.history@.len() as int) =~= self.history@);
        r
    }
}

/// A change accepted at `now` was proposed at least the parameter's minimum
/// timelock earlier.
pub proof fn lemma_timelock_respected(s: ParameterStoreContract, proposal_id: u64, now: u64)
    requires
        store_wf(s),
        s.proposals@.contains_key(proposal_id),
        now >= s.proposals@[proposal_id].effective_at,
    ensures
        now >= s.proposals@[proposal_id].created_at + min_timelock_spec(s.proposals@[proposal_id].parameter),
{
}

} // verus!
