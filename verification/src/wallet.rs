//! Institutional multisig wallet: admins propose transaction batches, approve
//! them, and execute them once the approval threshold is met; guardians,
//! after accepting an invitation, can rotate themselves and recover the wallet
//! (new admins and threshold) after a delay and a guardian quorum, or at once
//! when the admins have been inactive for 90 days. Every action is audited.
//! Authorisation of the acting account, and the invocation of an executed
//! batch, happen around this logic.
use vstd::prelude::*;
use crate::types::AccountId;
use crate::table::{Table, PairKey, vec_contains};

verus! {

/// Inactivity after which any guardian may recover at once (90 days).
pub const EMERGENCY_RECOVERY_TIMEOUT: u64 = 7_776_000;
/// Delay between starting and executing a recovery (24 hours).
pub const RECOVERY_DELAY: u64 = 86_400;

/// Errors of wallet operations.
#[derive(Copy, Clone, Debug, PartialEq, Eq, Structural)]
pub enum WalletError {
    AlreadyInitialized,
    NotInitialized,
    InvalidAdmins,
    InvalidThreshold,
    Unauthorized,
    InvalidBatch,
    ProposalNotFound,
    ProposalNotActive,
    AlreadyVoted,
    InsufficientApprovals,
    ExecutionFailed,
    RecoveryAlreadyExists,
    RecoveryNotActive,
}

/// Lifecycle of a proposal.
#[derive(Copy, Clone, Debug, PartialEq, Eq, Structural)]
pub enum ProposalStatus {
    Active,
    Executed,
}

/// One call of a batch: target contract, function name and encoded arguments.
pub struct Transaction {
    pub contract: AccountId,
    pub function: String,
    pub args: Vec<u8>,
}

/// A proposed batch.
pub struct Proposal {
    pub id: u64,
    pub proposer: AccountId,
    pub description: String,
    pub batch: Vec<Transaction>,
    pub status: ProposalStatus,
    pub created_at: u64,
}

/// What an audit entry records.
#[derive(Copy, Clone, Debug, PartialEq, Eq, Structural)]
pub enum AuditAction {
    Propose,
    Approve,
    Execute,
    Invite,
    Accept,
    Rotate,
    Recover,
    ApproveRecovery,
    CancelRecovery,
    ExecuteRecovery,
}

/// An audit entry.
#[derive(Copy, Clone, Debug, PartialEq, Eq, Structural)]
pub struct AuditEntry {
    pub actor: AccountId,
    pub action: AuditAction,
    pub timestamp: u64,
}

/// A pending recovery.
pub struct RecoveryRequest {
    pub new_admins: Vec<AccountId>,
    pub new_threshold: u32,
    pub initiated_at: u64,
}

/// Wallet state. Proposal `k` is stored at index `k - 1`; audit entries are
/// kept in order with the proposal they concern (0 for guardian actions).
pub struct InstitutionalWallet {
    pub threshold: Option<u32>,
    pub admins: Vec<AccountId>,
    pub last_activity: u64,
    pub proposals: Vec<Proposal>,
    pub approvals: Table<PairKey, bool>,
    pub approval_counts: Table<u64, u32>,
    pub audit: Vec<(u64, AuditEntry)>,
    pub pending_invites: Vec<AccountId>,
    pub guardians: Vec<AccountId>,
    pub guardian_threshold: u32,
    pub guardian_accepted: Table<AccountId, bool>,
    pub recovery: Option<RecoveryRequest>,
    pub guardian_approvals: Vec<AccountId>,
}

/// The quorum invariant: a configured threshold lies within [1, number of
/// admins], proposals are numbered from 1 in order, and a pending recovery
/// names a valid admin set.
pub open spec fn wallet_wf(w: InstitutionalWallet) -> bool {
    &&& (w.threshold matches Some(t) ==> 1 <= t <= w.admins@.len())
    &&& forall|i: int| 0 <= i < w.proposals@.len() ==> #[trigger] w.proposals@[i].id == i + 1
    &&& w.proposals@.len() < u64::MAX
    &&& (w.recovery matches Some(r) ==> 1 <= r.new_threshold <= r.new_admins@.len())
}

/// Approvals recorded for a proposal.
pub open spec fn approval_count(w: InstitutionalWallet, id: u64) -> u32 {
    if w.approval_counts@.contains_key(id) { w.approval_counts@[id] } else { 0 }
}

/// Whether `who` approved proposal `id`.
pub open spec fn has_approved(w: InstitutionalWallet, id: u64, who: AccountId) -> bool {
    w.approvals@.contains_key(PairKey { first: id, second: who })
}

/// The audit entries about `id`, in order.
pub open spec fn trail(s: Seq<(u64, AuditEntry)>, id: u64) -> Seq<AuditEntry>
    decreases s.len(),
{
    if s.len() == 0 {
        Seq::empty()
    } else if s.last().0 == id {
        trail(s.drop_last(), id).push(s.last().1)
    } else {
        trail(s.drop_last(), id)
    }
}

/// Everything but the admin set and the threshold is unchanged from `a` to `b`.
pub open spec fn keeps_all_but_quorum(a: InstitutionalWallet, b: InstitutionalWallet) -> bool {
    &&& b.last_activity == a.last_activity
    &&& b.proposals == a.proposals
    &&& b.approvals == a.approvals
    &&& b.approval_counts == a.approval_counts
    &&& b.audit == a.audit
    &&& b.pending_invites == a.pending_invites
    &&& b.guardians == a.guardians
    &&& b.guardian_threshold == a.guardian_threshold
    &&& b.guardian_accepted == a.guardian_accepted
    &&& b.recovery == a.recovery
    &&& b.guardian_approvals == a.guardian_approvals
}

/// The admin side (admins, threshold, activity, proposals and their
/// approvals) is unchanged from `a` to `b`.
pub open spec fn keeps_admin_side(a: InstitutionalWallet, b: InstitutionalWallet) -> bool {
    &&& b.threshold == a.threshold
    &&& b.admins == a.admins
    &&& b.last_activity == a.last_activity
    &&& b.proposals == a.proposals
    &&& b.approvals == a.approvals
    &&& b.approval_counts == a.approval_counts
}

/// Outcome of `approver` approving proposal `id`.
pub open spec fn approve_outcome(w: InstitutionalWallet, approver: AccountId, id: u64) -> Result<(), WalletError> {
    if !w.admins@.contains(approver) { Err(WalletError::Unauthorized) }
    else if !(1 <= id <= w.proposals@.len()) { Err(WalletError::ProposalNotFound) }
    else if w.proposals@[id - 1].status != ProposalStatus::Active { Err(WalletError::ProposalNotActive) }
    else if has_approved(w, id, approver) { Err(WalletError::AlreadyVoted) }
    else { Ok(()) }
}

/// `b` is `a` after `approver`'s accepted approval of proposal `id` at `now`:
/// the approval is recorded and counted (saturating), audited, and nothing
/// else about proposals or the quorum changes.
pub open spec fn approved_from(a: InstitutionalWallet, b: InstitutionalWallet, approver: AccountId, id: u64, now: u64) -> bool {
    &&& b.approvals@ == a.approvals@.insert(PairKey { first: id, second: approver }, true)
    &&& approval_count(b, id) as int == if approval_count(a, id) == u32::MAX {
        u32::MAX as int } else { approval_count(a, id) + 1 }
    &&& forall|k: u64| k != id ==> approval_count(b, k) == approval_count(a, k)
    &&& b.audit@ == a.audit@.push((id, AuditEntry { actor: approver, action: AuditAction::Approve, timestamp: now }))
    &&& b.last_activity == now
    &&& b.proposals == a.proposals
    &&& b.admins == a.admins && b.threshold == a.threshold
}

/// Outcome of `executor` executing proposal `id`.
pub open spec fn execute_outcome(w: InstitutionalWallet, executor: AccountId, id: u64) -> Result<(), WalletError> {
    if !w.admins@.contains(executor) { Err(WalletError::Unauthorized) }
    else if !(1 <= id <= w.proposals@.len()) { Err(WalletError::ProposalNotFound) }
    else if w.proposals@[id - 1].status != ProposalStatus::Active { Err(WalletError::ProposalNotActive) }
    else if w.threshold is None { Err(WalletError::NotInitialized) }
    else if approval_count(w, id) < w.threshold->Some_0 { Err(WalletError::InsufficientApprovals) }
    else { Ok(()) }
}

/// `b` is `a` after `executor`'s accepted execution of proposal `id` at `now`:
/// the proposal is marked executed with its other fields kept, every other
/// proposal is kept, the execution is audited, and approvals and the quorum
/// are unchanged.
pub open spec fn executed_from(a: InstitutionalWallet, b: InstitutionalWallet, executor: AccountId, id: u64, now: u64) -> bool {
    &&& b.proposals@.len() == a.proposals@.len()
    &&& b.proposals@[id - 1].status == ProposalStatus::Executed
    &&& b.proposals@[id - 1].proposer == a.proposals@[id - 1].proposer
    &&& b.proposals@[id - 1].created_at == a.proposals@[id - 1].created_at
    &&& b.proposals@[id - 1].id == a.proposals@[id - 1].id
    &&& b.proposals@[id - 1].description == a.proposals@[id - 1].description
    &&& b.proposals@[id - 1].batch == a.proposals@[id - 1].batch
    &&& forall|i: int| 0 <= i < a.proposals@.len() && i != id - 1 ==> #[trigger] b.proposals@[i] == a.proposals@[i]
    &&& b.audit@ == a.audit@.push((id, AuditEntry { actor: executor, action: AuditAction::Execute, timestamp: now }))
    &&& b.last_activity == now
    &&& b.approvals == a.approvals && b.approval_counts == a.approval_counts
    &&& b.admins == a.admins && b.threshold == a.threshold
}

/// Whether the guardian quorum is reached.
pub open spec fn quorum_reached(w: InstitutionalWallet) -> bool {
    w.guardian_approvals@.len() >= w.guardian_threshold
}

impl InstitutionalWallet {
    /// A wallet that has not been initialised.
    pub fn new() -> (r: Self)
        ensures
            r.threshold is None,
            r.admins@.len() == 0 && r.proposals@.len() == 0 && r.audit@.len() == 0,
            r.guardians@.len() == 0 && r.pending_invites@.len() == 0 && r.guardian_approvals@.len() == 0,
            r.recovery is None && r.guardian_threshold == 0 && r.last_activity == 0,
            r.approvals@ == Map::<PairKey, bool>::empty(),
            r.approval_counts@ == Map::<u64, u32>::empty(),
            r.guardian_accepted@ == Map::<AccountId, bool>::empty(),
            wallet_wf(r),
    {
        InstitutionalWallet {
            threshold: None,
            admins: Vec::new(),
            last_activity: 0,
            proposals: Vec::new(),
            approvals: Table::new(),
            approval_counts: Table::new(),
            audit: Vec::new(),
            pending_invites: Vec::new(),
            guardians: Vec::new(),
            guardian_threshold: 0,
            guardian_accepted: Table::new(),
            recovery: None,
            guardian_approvals: Vec::new(),
        }
    }

    fn log(&mut self, id: u64, actor: AccountId, action: AuditAction, now: u64)
        ensures
            final(self).audit@ == old(self).audit@.push((id, AuditEntry { actor, action, timestamp: now })),
            final(self).threshold == old(self).threshold,
            final(self).admins == old(self).admins,
            final(self).last_activity == old(self).last_activity,
            final(self).proposals == old(self).proposals,
            final(self).approvals == old(self).approvals,
            final(self).approval_counts == old(self).approval_counts,
            final(self).pending_invites == old(self).pending_invites,
            final(self).guardians == old(self).guardians,
            final(self).guardian_threshold == old(self).guardian_threshold,
            final(self).guardian_accepted == old(self).guardian_accepted,
            final(self).recovery == old(self).recovery,
            final(self).guardian_approvals == old(self).guardian_approvals,
    {
        self.audit.push((id, AuditEntry { actor, action, timestamp: now }));
    }

    /// Sets the admins and the threshold, once.
    pub fn initialize(&mut self, admins: Vec<AccountId>, threshold: u32, now: u64) -> (r: Result<(), WalletError>)
        requires
            wallet_wf(*old(self)),
        ensures
            wallet_wf(*final(self)),
            r == (if old(self).threshold is Some { Err(WalletError::AlreadyInitialized) }
                else if admins@.len() == 0 { Err(WalletError::InvalidAdmins) }
                else if threshold == 0 || threshold > admins@.len() { Err(WalletError::InvalidThreshold) }
                else { Ok(()) }),
            r is Ok ==> final(self).threshold == Some(threshold) && final(self).admins@ == admins@
                && final(self).last_activity == now,
            r is Err ==> *final(self) == *old(self),
    {
        if self.threshold.is_some() {
            return Err(WalletError::AlreadyInitialized);
        }
        if admins.len() == 0 {
            return Err(WalletError::InvalidAdmins);
        }
        if threshold == 0 || threshold as usize > admins.len() {
            return Err(WalletError::InvalidThreshold);
        }
        self.threshold = Some(threshold);
        self.admins = admins;
        self.last_activity = now;
        Ok(())
    }

    /// An admin proposes a non-empty batch; it is numbered next, approved by
    /// its proposer and audited.
    pub fn propose(&mut self, proposer: AccountId, description: String, batch: Vec<Transaction>, now: u64) -> (r: Result<u64, WalletError>)
        requires
            wallet_wf(*old(self)),
            old(self).proposals@.len() + 1 < u64::MAX,
        ensures
            wallet_wf(*final(self)),
            r == (if !old(self).admins@.contains(proposer) { Err(WalletError::Unauthorized) }
                else if batch@.len() == 0 { Err(WalletError::InvalidBatch) }
                else { Ok((old(self).proposals@.len() + 1) as u64) }),
            r is Err ==> *final(self) == *old(self),
            r matches Ok(id) ==> {
                &&& final(self).proposals@.len() == old(self).proposals@.len() + 1
                &&& final(self).proposals@.drop_last() == old(self).proposals@
                &&& final(self).proposals@.last().id == id
                &&& final(self).proposals@.last().proposer == proposer
                &&& final(self).proposals@.last().description@ == description@
                &&& final(self).proposals@.last().batch@ == batch@
                &&& final(self).proposals@.last().status == ProposalStatus::Active
                &&& final(self).proposals@.last().created_at == now
                &&& final(self).approvals@ == old(self).approvals@.insert(PairKey { first: id, second: proposer }, true)
                &&& final(self).approval_counts@ == old(self).approval_counts@.insert(id, 1)
                &&& final(self).audit@ == old(self).audit@.push((id, AuditEntry { actor: proposer, action: AuditAction::Propose, timestamp: now }))
                &&& final(self).last_activity == now
                &&& final(self).admins == old(self).admins && final(self).threshold == old(self).threshold
            },
    {
        if !vec_contains(&self.admins, proposer) {
            return Err(WalletError::Unauthorized);
        }
        if batch.len() == 0 {
            return Err(WalletError::InvalidBatch);
        }
        let id: u64 = (self.proposals.len() as u64) + 1;
        self.proposals.push(Proposal { id, proposer, description, batch, status: ProposalStatus::Active, created_at: now });
        self.last_activity = now;
        self.approvals.set(PairKey { first: id, second: proposer }, true);
        self.approval_counts.set(id, 1);
        self.log(id, proposer, AuditAction::Propose, now);
        Ok(id)
    }

    /// The proposal numbered `id`.
    pub fn get_proposal(&self, id: u64) -> (r: Option<&Proposal>)
        requires
            wallet_wf(*self),
        ensures
            r == (if 1 <= id <= self.proposals@.len() { Some(&self.proposals@[id - 1]) } else { None }),
    {
        if id >= 1 && id <= self.proposals.len() as u64 {
            Some(&self.proposals[(id - 1) as usize])
        } else {
            None
        }
    }

    /// An admin approves an active proposal, once.
    pub fn approve(&mut self, approver: AccountId, proposal_id: u64, now: u64) -> (r: Result<(), WalletError>)
        requires
            wallet_wf(*old(self)),
        ensures
            wallet_wf(*final(self)),
            r == approve_outcome(*old(self), approver, proposal_id),
            r is Err ==> *final(self) == *old(self),
            r is Ok ==> approved_from(*old(self), *final(self), approver, proposal_id, now),
    {
        if !vec_contains(&self.admins, approver) {
            return Err(WalletError::Unauthorized);
        }
        if proposal_id < 1 || proposal_id > self.proposals.len() as u64 {
            return Err(WalletError::ProposalNotFound);
        }
        if self.proposals[(proposal_id - 1) as usize].status != ProposalStatus::Active {
            return Err(WalletError::ProposalNotActive);
        }
        let key = PairKey { first: proposal_id, second: approver };
        if self.approvals.contains(&key) {
            return Err(WalletError::AlreadyVoted);
        }
        self.approvals.set(key, true);
        let count: u32 = match self.approval_counts.get(&proposal_id) { Some(c) => c, None => 0 };
        let next: u32 = if count == u32::MAX { count } else { count + 1 };
        self.approval_counts.set(proposal_id, next);
        self.last_activity = now;
        self.log(proposal_id, approver, AuditAction::Approve, now);
        Ok(())
    }

    /// An admin executes an active proposal whose approvals reach the
    /// threshold: it is marked executed (the caller then invokes its batch).
    pub fn execute(&mut self, executor: AccountId, proposal_id: u64, now: u64) -> (r: Result<(), WalletError>)
        requires
            wallet_wf(*old(self)),
        ensures
            wallet_wf(*final(self)),
            r == execute_outcome(*old(self), executor, proposal_id),
            r is Err ==> *final(self) == *old(self),
            r is Ok ==> executed_from(*old(self), *final(self), executor, proposal_id, now),
    {
        if !vec_contains(&self.admins, executor) {
            return Err(WalletError::Unauthorized);
        }
        if proposal_id < 1 || proposal_id > self.proposals.len() as u64 {
            return Err(WalletError::ProposalNotFound);
        }
        let idx = (proposal_id - 1) as usize;
        if self.proposals[idx].status != ProposalStatus::Active {
            return Err(WalletError::ProposalNotActive);
        }
        let threshold = match self.threshold {
            Some(t) => t,
            None => return Err(WalletError::NotInitialized),
        };
        let count: u32 = match self.approval_counts.get(&proposal_id) { Some(c) => c, None => 0 };
        if count < threshold {
            return Err(WalletError::InsufficientApprovals);
        }
        let ghost before = self.proposals@;
        let mut p = self.proposals.remove(idx);
        p.status = ProposalStatus::Executed;
        self.proposals.insert(idx, p);
        proof {
            assert forall|i: int| 0 <= i < self.proposals@.len() implies #[trigger] self.proposals@[i].id == i + 1 by {
                if i != idx as int {
                    assert(self.proposals@[i] == before[i]);
                }
            }
        }
        self.last_activity = now;
        self.log(proposal_id, executor, AuditAction::Execute, now);
        Ok(())
    }

    /// Adds an admin (through an executed proposal); refused if already one.
    pub fn add_admin(&mut self, new_admin: AccountId) -> (r: Result<(), WalletError>)
        requires
            wallet_wf(*old(self)),
        ensures
            wallet_wf(*final(self)),
            r == (if old(self).admins@.contains(new_admin) { Err(WalletError::InvalidAdmins) } else { Ok(()) }),
            final(self).admins@ == (if r is Ok { old(self).admins@.push(new_admin) } else { old(self).admins@ }),
            final(self).threshold == old(self).threshold,
            keeps_all_but_quorum(*old(self), *final(self)),
    {
        if vec_contains(&self.admins, new_admin) {
            return Err(WalletError::InvalidAdmins);
        }
        self.admins.push(new_admin);
        Ok(())
    }

    /// Removes an admin (through an executed proposal) unless that would leave
    /// fewer admins than the threshold.
    pub fn remove_admin(&mut self, admin: AccountId) -> (r: Result<(), WalletError>)
        requires
            wallet_wf(*old(self)),
        ensures
            wallet_wf(*final(self)),
            r == (if !old(self).admins@.contains(admin) { Err(WalletError::InvalidAdmins) }
                else if old(self).threshold is None { Err(WalletError::NotInitialized) }
                else if old(self).admins@.filter(|a: AccountId| a != admin).len() < old(self).threshold->Some_0 {
                    Err(WalletError::InvalidThreshold) }
                else { Ok(()) }),
            final(self).admins@ == (if r is Ok { old(self).admins@.filter(|a: AccountId| a != admin) } else { old(self).admins@ }),
            final(self).threshold == old(self).threshold,
            keeps_all_but_quorum(*old(self), *final(self)),
    {
        let ghost s = self.admins@;
        let mut kept: Vec<AccountId> = Vec::new();
        let mut found = false;
        let mut i: usize = 0;
        while i < self.admins.len()
            invariant
                i <= self.admins@.len(),
                s == self.admins@,
                kept@ == s.take(i as int).filter(|a: AccountId| a != admin),
                found <==> exists|j: int| 0 <= j < i && #[trigger] s[j] == admin,
            decreases self.admins@.len() - i,
        {
            let a = self.admins[i];
            proof {
                assert(s.take(i + 1).drop_last() =~= s.take(i as int));
                reveal(Seq::filter);
            }
            if a == admin {
                found = true;
            } else {
                kept.push(a);
            }
            i = i + 1;
        }
        assert(s.take(s.len() as int) =~= s);
        if !found {
            return Err(WalletError::InvalidAdmins);
        }
        let threshold = match self.threshold {
            Some(t) => t,
            None => return Err(WalletError::NotInitialized),
        };
        if kept.len() < threshold as usize {
            return Err(WalletError::InvalidThreshold);
        }
        self.admins = kept;
        Ok(())
    }

    /// Changes the threshold (through an executed proposal) within [1, number of admins].
    pub fn set_threshold(&mut self, threshold: u32) -> (r: Result<(), WalletError>)
        requires
            wallet_wf(*old(self)),
        ensures
            wallet_wf(*final(self)),
            r == (if threshold == 0 || threshold > old(self).admins@.len() { Err(WalletError::InvalidThreshold) }
                else if old(self).threshold is None { Err(WalletError::NotInitialized) }
                else { Ok(()) }),
            final(self).threshold == (if r is Ok { Some(threshold) } else { old(self).threshold }),
            final(self).admins == old(self).admins,
            keeps_all_but_quorum(*old(self), *final(self)),
    {
        if threshold == 0 || threshold as usize > self.admins.len() {
            return Err(WalletError::InvalidThreshold);
        }
        if self.threshold.is_none() {
            return Err(WalletError::NotInitialized);
        }
        self.threshold = Some(threshold);
        Ok(())
    }

    /// Invites guardians (through an executed proposal) with a guardian threshold.
    pub fn propose_guardians(&mut self, caller: AccountId, guardians: Vec<AccountId>, threshold: u32, now: u64) -> (r: Result<(), WalletError>)
        requires
            wallet_wf(*old(self)),
        ensures
            wallet_wf(*final(self)),
            keeps_admin_side(*old(self), *final(self)),
            r == (if guardians@.len() == 0 || threshold == 0 || threshold > guardians@.len() { Err(WalletError::InvalidThreshold) } else { Ok(()) }),
            r is Err ==> *final(self) == *old(self),
            r is Ok ==> final(self).pending_invites@ == guardians@ && final(self).guardian_threshold == threshold
                && final(self).audit@ == old(self).audit@.push((0u64, AuditEntry { actor: caller, action: AuditAction::Invite, timestamp: now }))
                && final(self).guardians == old(self).guardians,
    {
        if guardians.len() == 0 || threshold == 0 || threshold as usize > guardians.len() {
            return Err(WalletError::InvalidThreshold);
        }
        self.pending_invites = guardians;
        self.guardian_threshold = threshold;
        self.log(0, caller, AuditAction::Invite, now);
        Ok(())
    }

    /// An invited guardian accepts, once.
    pub fn accept_guardian(&mut self, guardian: AccountId, now: u64) -> (r: Result<(), WalletError>)
        requires
            wallet_wf(*old(self)),
        ensures
            wallet_wf(*final(self)),
            keeps_admin_side(*old(self), *final(self)),
            r == (if !old(self).pending_invites@.contains(guardian) { Err(WalletError::Unauthorized) }
                else if old(self).guardians@.contains(guardian) { Err(WalletError::InvalidAdmins) }
                else { Ok(()) }),
            r is Err ==> *final(self) == *old(self),
            r is Ok ==> final(self).guardians@ == old(self).guardians@.push(guardian)
                && final(self).guardian_accepted@ == old(self).guardian_accepted@.insert(guardian, true)
                && final(self).audit@ == old(self).audit@.push((0u64, AuditEntry { actor: guardian, action: AuditAction::Accept, timestamp: now })),
    {
        if !vec_contains(&self.pending_invites, guardian) {
            return Err(WalletError::Unauthorized);
        }
        if vec_contains(&self.guardians, guardian) {
            return Err(WalletError::InvalidAdmins);
        }
        self.guardians.push(guardian);
        self.guardian_accepted.set(guardian, true);
        self.log(0, guardian, AuditAction::Accept, now);
        Ok(())
    }

    /// A guardian consents to replacing the guardian set; once the guardian
    /// threshold of consents is reached the new set (also re-invited) and
    /// threshold take effect and the consents are cleared.
    pub fn rotate_guardians(&mut self, caller: AccountId, new_guardians: Vec<AccountId>, new_threshold: u32, now: u64) -> (r: Result<(), WalletError>)
        requires
            wallet_wf(*old(self)),
        ensures
            wallet_wf(*final(self)),
            keeps_admin_side(*old(self), *final(self)),
            r == (if !old(self).guardians@.contains(caller) { Err(WalletError::Unauthorized) }
                else if new_guardians@.len() == 0 || new_threshold == 0 || new_threshold > new_guardians@.len() { Err(WalletError::InvalidThreshold) }
                else if old(self).guardian_approvals@.contains(caller) { Err(WalletError::AlreadyVoted) }
                else { Ok(()) }),
            r is Err ==> *final(self) == *old(self),
            r is Ok && old(self).guardian_approvals@.len() + 1 < old(self).guardian_threshold ==>
                final(self).guardian_approvals@ == old(self).guardian_approvals@.push(caller)
                && final(self).guardians == old(self).guardians && final(self).audit == old(self).audit,
            r is Ok && old(self).guardian_approvals@.len() + 1 >= old(self).guardian_threshold ==>
                final(self).guardians@ == new_guardians@ && final(self).pending_invites@ == new_guardians@
                && final(self).guardian_threshold == new_threshold && final(self).guardian_approvals@.len() == 0
                && final(self).audit@ == old(self).audit@.push((0u64, AuditEntry { actor: caller, action: AuditAction::Rotate, timestamp: now })),
    {
        if !vec_contains(&self.guardians, caller) {
            return Err(WalletError::Unauthorized);
        }
        if new_guardians.len() == 0 || new_threshold == 0 || new_threshold as usize > new_guardians.len() {
            return Err(WalletError::InvalidThreshold);
        }
        if vec_contains(&self.guardian_approvals, caller) {
            return Err(WalletError::AlreadyVoted);
        }
        self.guardian_approvals.push(caller);
        if self.guardian_approvals.len() < self.guardian_threshold as usize {
            return Ok(());
        }
        let invites = crate::table::copy_vec(&new_guardians);
        self.guardians = new_guardians;
        self.guardian_threshold = new_threshold;
        self.pending_invites = invites;
        self.guardian_approvals = Vec::new();
        self.log(0, caller, AuditAction::Rotate, now);
        Ok(())
    }

    /// A guardian starts a recovery towards new admins and threshold; the
    /// guardian's own consent is the first.
    pub fn start_recovery(&mut self, guardian: AccountId, new_admins: Vec<AccountId>, new_threshold: u32, now: u64) -> (r: Result<(), WalletError>)
        requires
            wallet_wf(*old(self)),
        ensures
            wallet_wf(*final(self)),
            keeps_admin_side(*old(self), *final(self)),
            r == (if !old(self).guardians@.contains(guardian) { Err(WalletError::Unauthorized) }
                else if old(self).recovery is Some { Err(WalletError::RecoveryAlreadyExists) }
                else if new_admins@.len() == 0 || new_threshold == 0 || new_threshold > new_admins@.len() { Err(WalletError::InvalidThreshold) }
                else { Ok(()) }),
            r is Err ==> *final(self) == *old(self),
            r is Ok ==> (final(self).recovery matches Some(q) && q.new_admins@ == new_admins@ && q.new_threshold == new_threshold
                && q.initiated_at == now) && final(self).guardian_approvals@ == seq![guardian]
                && final(self).audit@ == old(self).audit@.push((0u64, AuditEntry { actor: guardian, action: AuditAction::Recover, timestamp: now }))
                && final(self).admins == old(self).admins && final(self).threshold == old(self).threshold,
    {
        if !vec_contains(&self.guardians, guardian) {
            return Err(WalletError::Unauthorized);
        }
        if self.recovery.is_some() {
            return Err(WalletError::RecoveryAlreadyExists);
        }
        if new_admins.len() == 0 || new_threshold == 0 || new_threshold as usize > new_admins.len() {
            return Err(WalletError::InvalidThreshold);
        }
        self.recovery = Some(RecoveryRequest { new_admins, new_threshold, initiated_at: now });
        let mut approvals: Vec<AccountId> = Vec::new();
        approvals.push(guardian);
        self.guardian_approvals = approvals;
        self.log(0, guardian, AuditAction::Recover, now);
        Ok(())
    }

    /// Another guardian consents to the pending recovery; an expired recovery
    /// (older than 90 days) is dropped instead.
    pub fn approve_recovery(&mut self, guardian: AccountId, now: u64) -> (r: Result<(), WalletError>)
        requires
            wallet_wf(*old(self)),
            old(self).recovery matches Some(q) ==> q.initiated_at + EMERGENCY_RECOVERY_TIMEOUT <= u64::MAX,
        ensures
            wallet_wf(*final(self)),
            keeps_admin_side(*old(self), *final(self)),
            r == (if !old(self).guardians@.contains(guardian) { Err(WalletError::Unauthorized) }
                else if old(self).recovery is None { Err(WalletError::RecoveryNotActive) }
                else if now > old(self).recovery->Some_0.initiated_at + EMERGENCY_RECOVERY_TIMEOUT { Err(WalletError::RecoveryNotActive) }
                else if old(self).guardian_approvals@.contains(guardian) { Err(WalletError::AlreadyVoted) }
                else { Ok(()) }),
            (old(self).recovery matches Some(q) && old(self).guardians@.contains(guardian)
                && now > q.initiated_at + EMERGENCY_RECOVERY_TIMEOUT) ==> final(self).recovery is None,
            r is Ok ==> final(self).guardian_approvals@ == old(self).guardian_approvals@.push(guardian)
                && final(self).audit@ == old(self).audit@.push((0u64, AuditEntry { actor: guardian, action: AuditAction::ApproveRecovery, timestamp: now }))
                && final(self).recovery == old(self).recovery,
    {
        if !vec_contains(&self.guardians, guardian) {
            return Err(WalletError::Unauthorized);
        }
        let initiated_at = match &self.recovery {
            None => return Err(WalletError::RecoveryNotActive),
            Some(q) => q.initiated_at,
        };
        if now > initiated_at + EMERGENCY_RECOVERY_TIMEOUT {
            self.recovery = None;
            return Err(WalletError::RecoveryNotActive);
        }
        if vec_contains(&self.guardian_approvals, guardian) {
            return Err(WalletError::AlreadyVoted);
        }
        self.guardian_approvals.push(guardian);
        self.log(0, guardian, AuditAction::ApproveRecovery, now);
        Ok(())
    }

    /// An admin cancels the pending recovery while the guardian quorum is not reached.
    pub fn cancel_recovery_by_owner(&mut self, owner: AccountId, now: u64) -> (r: Result<(), WalletError>)
        requires
            wallet_wf(*old(self)),
        ensures
            wallet_wf(*final(self)),
            keeps_admin_side(*old(self), *final(self)),
            r == (if !old(self).admins@.contains(owner) { Err(WalletError::Unauthorized) }
                else if old(self).recovery is None { Err(WalletError::RecoveryNotActive) }
                else if quorum_reached(*old(self)) { Err(WalletError::ExecutionFailed) }
                else { Ok(()) }),
            r is Err ==> *final(self) == *old(self),
            r is Ok ==> final(self).recovery is None && final(self).guardian_approvals@.len() == 0
                && final(self).audit@ == old(self).audit@.push((0u64, AuditEntry { actor: owner, action: AuditAction::CancelRecovery, timestamp: now }))
                && final(self).admins == old(self).admins && final(self).threshold == old(self).threshold,
    {
        if !vec_contains(&self.admins, owner) {
            return Err(WalletError::Unauthorized);
        }
        if self.recovery.is_none() {
            return Err(WalletError::RecoveryNotActive);
        }
        if self.guardian_approvals.len() >= self.guardian_threshold as usize {
            return Err(WalletError::ExecutionFailed);
        }
        self.recovery = None;
        self.guardian_approvals = Vec::new();
        self.log(0, owner, AuditAction::CancelRecovery, now);
        Ok(())
    }

    /// A guardian executes the pending recovery: normally after the 24-hour
    /// delay and with the guardian quorum; at once when the admins have been
    /// inactive for 90 days. The new admins and threshold take effect.
    pub fn execute_recovery(&mut self, guardian: AccountId, now: u64) -> (r: Result<(), WalletError>)
        requires
            wallet_wf(*old(self)),
            old(self).last_activity + EMERGENCY_RECOVERY_TIMEOUT <= u64::MAX,
            old(self).recovery matches Some(q) ==> q.initiated_at + RECOVERY_DELAY <= u64::MAX,
        ensures
            wallet_wf(*final(self)),
            r == (if !old(self).guardians@.contains(guardian) { Err(WalletError::Unauthorized) }
                else if old(self).recovery is None { Err(WalletError::ProposalNotFound) }
                else if old(self).last_activity + EMERGENCY_RECOVERY_TIMEOUT >= now
                    && now < old(self).recovery->Some_0.initiated_at + RECOVERY_DELAY { Err(WalletError::ExecutionFailed) }
                else if old(self).last_activity + EMERGENCY_RECOVERY_TIMEOUT >= now && !quorum_reached(*old(self)) {
                    Err(WalletError::InsufficientApprovals) }
                else { Ok(()) }),
            r is Err ==> *final(self) == *old(self),
            r is Ok ==> final(self).admins@ == old(self).recovery->Some_0.new_admins@
                && final(self).threshold == Some(old(self).recovery->Some_0.new_threshold)
                && final(self).recovery is None && final(self).guardian_approvals@.len() == 0
                && final(self).last_activity == now
                && final(self).audit@ == old(self).audit@.push((0u64, AuditEntry { actor: guardian, action: AuditAction::ExecuteRecovery, timestamp: now })),
            final(self).proposals == old(self).proposals && final(self).approvals == old(self).approvals
                && final(self).approval_counts == old(self).approval_counts && final(self).guardians == old(self).guardians
                && final(self).guardian_threshold == old(self).guardian_threshold
                && final(self).pending_invites == old(self).pending_invites
                && final(self).guardian_accepted == old(self).guardian_accepted,
    {
        if !vec_contains(&self.guardians, guardian) {
            return Err(WalletError::Unauthorized);
        }
        let initiated_at = match &self.recovery {
            None => return Err(WalletError::ProposalNotFound),
            Some(q) => q.initiated_at,
        };
        let emergency = self.last_activity + EMERGENCY_RECOVERY_TIMEOUT < now;
        if !emergency {
            if now < initiated_at + RECOVERY_DELAY {
                return Err(WalletError::ExecutionFailed);
            }
            if self.guardian_approvals.len() < self.guardian_threshold as usize {
                return Err(WalletError::InsufficientApprovals);
            }
        }
        let q = match self.recovery.take() {
            Some(q) => q,
            None => return Err(WalletError::ProposalNotFound),
        };
        self.admins = q.new_admins;
        self.threshold = Some(q.new_threshold);
        self.guardian_approvals = Vec::new();
        self.last_activity = now;
        self.log(0, guardian, AuditAction::ExecuteRecovery, now);
        Ok(())
    }

    /// The audit entries about a proposal (0: guardian actions), in order.
    pub fn get_audit_trail(&self, id: u64) -> (r: Vec<AuditEntry>)
        ensures
            r@ == trail(self.audit@, id),
    {
        let mut r: Vec<AuditEntry> = Vec::new();
        let mut i: usize = 0;
        while i < self.audit.len()
            invariant
                i <= self.audit@.len(),
                r@ == trail(self.audit@.take(i as int), id),
            decreases self.audit@.len() - i,
        {
            assert(self.audit@.take(i + 1).drop_last() =~= self.audit@.take(i as int));
            let e = self.audit[i];
            if e.0 == id {
                r.push(e.1);
            }
            i = i + 1;
        }
        assert(self.audit@.take(self.audit@.len() as int) =~= self.audit@);
        r
    }

    /// The configured threshold, 0 before initialisation.
    pub fn get_threshold(&self) -> (r: u32)
        ensures
            r == (match self.threshold { Some(t) => t, None => 0 }),
    {
        match self.threshold {
            Some(t) => t,
            None => 0,
        }
    }

    /// The admins.
    pub fn get_admins(&self) -> (r: Vec<AccountId>)
        ensures
            r@ == self.admins@,
    {
        crate::table::copy_vec(&self.admins)
    }

    /// The guardians that accepted.
    pub fn get_guardians(&self) -> (r: Vec<AccountId>)
        ensures
            r@ == self.guardians@,
    {
        crate::table::copy_vec(&self.guardians)
    }

    /// The guardian threshold.
    pub fn get_guardian_threshold(&self) -> (r: u32)
        ensures
            r == self.guardian_threshold,
    {
        self.guardian_threshold
    }

    /// The invited guardians.
    pub fn get_pending_guardian_invites(&self) -> (r: Vec<AccountId>)
        ensures
            r@ == self.pending_invites@,
    {
        crate::table::copy_vec(&self.pending_invites)
    }

    /// The pending recovery, if any.
    pub fn get_recovery_request(&self) -> (r: Option<&RecoveryRequest>)
        ensures
            r == (match &self.recovery { Some(q) => Some(q), None => None::<&RecoveryRequest> }),
    {
        match &self.recovery {
            Some(q) => Some(q),
            None => None,
        }
    }

    /// The guardians that consented to the pending rotation or recovery.
    pub fn get_guardian_approvals(&self) -> (r: Vec<AccountId>)
        ensures
            r@ == self.guardian_approvals@,
    {
        crate::table::copy_vec(&self.guardian_approvals)
    }

    /// The time of the last admin activity.
    pub fn get_last_activity(&self) -> (r: u64)
        ensures
            r == self.last_activity,
    {
        self.last_activity
    }

    /// Whether a guardian accepted an invitation.
    pub fn is_guardian_accepted(&self, guardian: AccountId) -> (r: bool)
        ensures
            r == (self.guardian_accepted@.contains_key(guardian) && self.guardian_accepted@[guardian]),
    {
        match self.guardian_accepted.get(&guardian) {
            Some(b) => b,
            None => false,
        }
    }
}

/// A proposal is executed at most once: after an accepted execution, every
/// further attempt to execute it is refused as no longer active.
pub proof fn lemma_execute_at_most_once(a: InstitutionalWallet, b: InstitutionalWallet, executor: AccountId, id: u64,
    now: u64, next_executor: AccountId)
    requires
        execute_outcome(a, executor, id) is Ok,
        executed_from(a, b, executor, id, now),
        b.admins@.contains(next_executor),
    ensures
        execute_outcome(b, next_executor, id) == Err::<(), WalletError>(WalletError::ProposalNotActive),
{
}

/// Execution needs the threshold: an accepted execution had at least the
/// configured number of approvals.
pub proof fn lemma_execute_needs_threshold(w: InstitutionalWallet, executor: AccountId, id: u64)
    requires
        execute_outcome(w, executor, id) is Ok,
    ensures
        w.threshold is Some,
        approval_count(w, id) >= w.threshold->Some_0,
        w.admins@.contains(executor),
{
}

/// An admin approves a proposal at most once: after an accepted approval, a
/// second approval by the same admin is refused.
pub proof fn lemma_no_double_approval(a: InstitutionalWallet, b: InstitutionalWallet, approver: AccountId, id: u64, now: u64)
    requires
        approve_outcome(a, approver, id) is Ok,
        approved_from(a, b, approver, id, now),
    ensures
        approve_outcome(b, approver, id) == Err::<(), WalletError>(WalletError::AlreadyVoted),
{
}

proof fn lemma_filter_out_absent(s: Seq<AccountId>, x: AccountId)
    requires
        !s.contains(x),
    ensures
        s.filter(|a: AccountId| a != x).len() == s.len(),
    decreases s.len(),
{
    reveal(Seq::filter);
    if s.len() > 0 {
        assert(!s.drop_last().contains(x)) by {
            if s.drop_last().contains(x) {
                let j = choose|j: int| 0 <= j < s.drop_last().len() && s.drop_last()[j] == x;
                assert(s[j] == x);
            }
        }
        assert(s.last() != x) by {
            assert(s[s.len() - 1] == s.last());
        }
        lemma_filter_out_absent(s.drop_last(), x);
    }
}

/// Removing an admin from a list without repeats shortens it by exactly one,
/// so the removal is refused for the threshold exactly when one admin fewer
/// than the threshold would remain.
pub proof fn lemma_remove_admin_shortens(admins: Seq<AccountId>, admin: AccountId)
    requires
        admins.no_duplicates(),
        admins.contains(admin),
    ensures
        admins.filter(|a: AccountId| a != admin).len() == admins.len() - 1,
    decreases admins.len(),
{
    reveal(Seq::filter);
    let init = admins.drop_last();
    assert(init.no_duplicates()) by {
        assert forall|i: int, j: int| 0 <= i < init.len() && 0 <= j < init.len() && i != j implies init[i] != init[j] by {
            assert(init[i] == admins[i] && init[j] == admins[j]);
        }
    }
    if admins.last() == admin {
        assert(!init.contains(admin)) by {
            if init.contains(admin) {
                let j = choose|j: int| 0 <= j < init.len() && init[j] == admin;
                assert(admins[j] == admins[admins.len() - 1]);
            }
        }
        lemma_filter_out_absent(init, admin);
    } else {
        assert(init.contains(admin)) by {
            let j = choose|j: int| 0 <= j < admins.len() && admins[j] == admin;
            assert(j != admins.len() - 1);
            assert(init[j] == admin);
        }
        lemma_remove_admin_shortens(init, admin);
    }
}

} // verus!
