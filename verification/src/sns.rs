//! Name service integration: each name is registered for an address and
//! expires after a configured number of days; resolving a name goes through a
//! time-limited cache kept for that name. What a name resolves to depends only
//! on that name's own record and cache.
use vstd::prelude::*;
use crate::types::AccountId;

verus! {

/// Errors of the name service.
#[derive(Copy, Clone, Debug, PartialEq, Eq, Structural)]
pub enum SNSError {
    NotInitialized,
    AlreadyInitialized,
    Unauthorized,
    NameNotFound,
    NameExpired,
    InvalidName,
    ResolutionFailed,
    CacheMiss,
}

/// A registered name.
pub struct SNSRecord {
    pub name: String,
    pub address: AccountId,
    pub registered_at: u64,
    pub expires_at: u64,
    pub owner: AccountId,
}

/// A cached resolution.
pub struct SNSCache {
    pub name: String,
    pub address: AccountId,
    pub cached_at: u64,
    pub ttl: u64,
}

/// Service configuration.
#[derive(Copy, Clone, Debug, PartialEq, Eq, Structural)]
pub struct SNSConfig {
    pub admin: AccountId,
    pub cache_ttl_seconds: u64,
    pub name_expiry_days: u64,
}

/// Usage counters.
#[derive(Copy, Clone, Debug, PartialEq, Eq, Structural)]
pub struct SNSAnalytics {
    pub total_names_registered: u32,
    pub total_resolutions: u64,
    /// Cache hits, counted up to 100.
    pub cache_hit_rate: u32,
    pub resolution_latency_ms: u64,
}

/// A registered name, abstractly.
pub struct RecordView {
    pub name: Seq<char>,
    pub address: AccountId,
    pub registered_at: u64,
    pub expires_at: u64,
    pub owner: AccountId,
}

/// A cached resolution, abstractly.
pub struct CacheView {
    pub name: Seq<char>,
    pub address: AccountId,
    pub cached_at: u64,
    pub ttl: u64,
}

/// What is kept for one name: its record and its cached resolution.
pub struct NameSlot {
    pub name: String,
    pub record: Option<SNSRecord>,
    pub cache: Option<SNSCache>,
}

/// What is kept for one name, abstractly.
pub struct SlotView {
    pub name: Seq<char>,
    pub record: Option<RecordView>,
    pub cache: Option<CacheView>,
}

/// Abstract state of the name service.
pub struct SnsView {
    pub config: Option<SNSConfig>,
    pub analytics: SNSAnalytics,
    pub slots: Seq<SlotView>,
}

/// Name service state.
pub struct SNSIntegration {
    pub config: Option<SNSConfig>,
    pub analytics: SNSAnalytics,
    pub slots: Vec<NameSlot>,
}

/// The abstract form of a record.
pub open spec fn record_view(r: Option<SNSRecord>) -> Option<RecordView> {
    match r {
        Some(r) => Some(RecordView { name: r.name@, address: r.address, registered_at: r.registered_at,
            expires_at: r.expires_at, owner: r.owner }),
        None => None,
    }
}

/// The abstract form of a cached resolution.
pub open spec fn cache_view(c: Option<SNSCache>) -> Option<CacheView> {
    match c {
        Some(c) => Some(CacheView { name: c.name@, address: c.address, cached_at: c.cached_at, ttl: c.ttl }),
        None => None,
    }
}

/// The abstract form of a name slot.
pub open spec fn slot_view(s: NameSlot) -> SlotView {
    SlotView { name: s.name@, record: record_view(s.record), cache: cache_view(s.cache) }
}

impl View for SNSIntegration {
    type V = SnsView;

    open spec fn view(&self) -> SnsView {
        SnsView { config: self.config, analytics: self.analytics, slots: self.slots@.map_values(|s: NameSlot| slot_view(s)) }
    }
}

/// The index of the first slot kept for `name`.
pub open spec fn find_slot(s: Seq<SlotView>, name: Seq<char>) -> Option<int>
    decreases s.len(),
{
    if s.len() == 0 {
        None
    } else {
        match find_slot(s.drop_last(), name) {
            Some(i) => Some(i),
            None => if s.last().name == name { Some(s.len() - 1) } else { None },
        }
    }
}

/// The slot kept for `name`, if any.
pub open spec fn slot_at(s: Seq<SlotView>, name: Seq<char>) -> Option<SlotView> {
    match find_slot(s, name) {
        Some(i) => Some(s[i]),
        None => None,
    }
}

/// The record of `name`.
pub open spec fn record_of(v: SnsView, name: Seq<char>) -> Option<RecordView> {
    match slot_at(v.slots, name) {
        Some(sl) => sl.record,
        None => None,
    }
}

/// The cached resolution of `name`.
pub open spec fn cache_of(v: SnsView, name: Seq<char>) -> Option<CacheView> {
    match slot_at(v.slots, name) {
        Some(sl) => sl.cache,
        None => None,
    }
}

/// The slots with the slot of `name` holding `record` and `cache` (a new slot
/// when the name has none).
pub open spec fn put_slot(s: Seq<SlotView>, name: Seq<char>, record: Option<RecordView>, cache: Option<CacheView>) -> Seq<SlotView> {
    match find_slot(s, name) {
        Some(i) => s.update(i, SlotView { name, record, cache }),
        None => s.push(SlotView { name, record, cache }),
    }
}

proof fn lemma_find_slot_bounds(s: Seq<SlotView>, name: Seq<char>)
    ensures
        find_slot(s, name) matches Some(i) ==> 0 <= i < s.len() && s[i].name == name,
    decreases s.len(),
{
    if s.len() > 0 {
        lemma_find_slot_bounds(s.drop_last(), name);
    }
}

proof fn lemma_find_slot_update(s: Seq<SlotView>, i: int, x: SlotView, n: Seq<char>)
    requires
        0 <= i < s.len(),
        x.name == s[i].name,
    ensures
        find_slot(s.update(i, x), n) == find_slot(s, n),
    decreases s.len(),
{
    if i < s.len() - 1 {
        assert(s.update(i, x).drop_last() =~= s.drop_last().update(i, x));
        lemma_find_slot_update(s.drop_last(), i, x, n);
    } else {
        assert(s.update(i, x).drop_last() =~= s.drop_last());
    }
}

proof fn lemma_find_slot_push(s: Seq<SlotView>, x: SlotView, n: Seq<char>)
    ensures
        find_slot(s.push(x), n) == (match find_slot(s, n) {
            Some(j) => Some(j),
            None => if x.name == n { Some(s.len() as int) } else { None },
        }),
{
    assert(s.push(x).drop_last() =~= s);
}

/// Putting the slot of `name` changes what is kept for `name` only.
pub proof fn lemma_put_slot(s: Seq<SlotView>, name: Seq<char>, record: Option<RecordView>, cache: Option<CacheView>, n: Seq<char>)
    ensures
        slot_at(put_slot(s, name, record, cache), n)
            == (if n == name { Some(SlotView { name, record, cache }) } else { slot_at(s, n) }),
        find_slot(s, name) is Some ==> find_slot(put_slot(s, name, record, cache), n) == find_slot(s, n),
{
    lemma_find_slot_bounds(s, name);
    lemma_find_slot_bounds(s, n);
    match find_slot(s, name) {
        Some(i) => {
            lemma_find_slot_update(s, i, SlotView { name, record, cache }, n);
        },
        None => {
            lemma_find_slot_push(s, SlotView { name, record, cache }, n);
        },
    }
}

/// Putting the slot of `name` twice keeps the second.
proof fn lemma_put_slot_twice(s: Seq<SlotView>, name: Seq<char>, r1: Option<RecordView>, c1: Option<CacheView>,
    r2: Option<RecordView>, c2: Option<CacheView>)
    requires
        find_slot(s, name) is Some,
    ensures
        put_slot(put_slot(s, name, r1, c1), name, r2, c2) == put_slot(s, name, r2, c2),
{
    lemma_put_slot(s, name, r1, c1, name);
    lemma_find_slot_bounds(s, name);
    let i = find_slot(s, name)->Some_0;
    assert(put_slot(s, name, r1, c1) == s.update(i, SlotView { name, record: r1, cache: c1 }));
    assert(put_slot(put_slot(s, name, r1, c1), name, r2, c2)
        == s.update(i, SlotView { name, record: r1, cache: c1 }).update(i, SlotView { name, record: r2, cache: c2 }));
    assert(put_slot(put_slot(s, name, r1, c1), name, r2, c2) =~= put_slot(s, name, r2, c2));
}

/// A resolution of `name` at `now` cannot overflow: the cached expiry of the
/// name is representable, and a counted resolution has room in the counter.
pub open spec fn resolvable(v: SnsView, name: Seq<char>, now: u64) -> bool {
    v.config is Some ==> {
        &&& (cache_of(v, name) matches Some(c) ==> c.cached_at + c.ttl <= u64::MAX)
        &&& ((cache_of(v, name) matches Some(c) && now < c.cached_at + c.ttl)
            || (record_of(v, name) matches Some(r) && r.expires_at >= now)) ==> v.analytics.total_resolutions < u64::MAX
    }
}

/// The state with the cached resolution of `name` dropped.
pub open spec fn drop_cache(v: SnsView, name: Seq<char>) -> SnsView {
    if find_slot(v.slots, name) is Some {
        SnsView { slots: put_slot(v.slots, name, record_of(v, name), None), ..v }
    } else {
        v
    }
}

/// Outcome of resolving `name` at `now`: a valid cached resolution of the name
/// is served (and counted as a hit); otherwise the name's stale cache entry is
/// dropped and its record is looked up, refused when missing or expired, and
/// otherwise served and cached.
pub open spec fn resolve_spec(v: SnsView, name: Seq<char>, now: u64) -> (SnsView, Result<AccountId, SNSError>) {
    if v.config is None {
        (v, Err(SNSError::NotInitialized))
    } else if cache_of(v, name) matches Some(c) && now < c.cached_at + c.ttl {
        let a = v.analytics;
        let a2 = SNSAnalytics {
            total_resolutions: (a.total_resolutions + 1) as u64,
            cache_hit_rate: if a.cache_hit_rate < 100 { (a.cache_hit_rate + 1) as u32 } else { a.cache_hit_rate },
            ..a
        };
        (SnsView { analytics: a2, ..v }, Ok(cache_of(v, name)->Some_0.address))
    } else {
        match record_of(v, name) {
            None => (drop_cache(v, name), Err(SNSError::NameNotFound)),
            Some(r) => if r.expires_at < now {
                (drop_cache(v, name), Err(SNSError::NameExpired))
            } else {
                (SnsView {
                    slots: put_slot(v.slots, name, Some(r),
                        Some(CacheView { name, address: r.address, cached_at: now, ttl: v.config->Some_0.cache_ttl_seconds })),
                    analytics: SNSAnalytics { total_resolutions: (v.analytics.total_resolutions + 1) as u64, ..v.analytics },
                    ..v
                }, Ok(r.address))
            },
        }
    }
}

/// Outcomes of resolving the first `n` names in order.
pub open spec fn batch_spec(v: SnsView, names: Seq<Seq<char>>, now: u64, n: int) -> (SnsView, Seq<Result<AccountId, SNSError>>)
    decreases n,
{
    if n <= 0 {
        (v, Seq::empty())
    } else {
        let (w, rs) = batch_spec(v, names, now, n - 1);
        let (w2, r) = resolve_spec(w, names[n - 1], now);
        (w2, rs.push(r))
    }
}

/// Each of the first `n` resolutions of a batch cannot overflow in the state
/// the earlier ones leave.
pub open spec fn batch_resolvable(v: SnsView, names: Seq<Seq<char>>, now: u64, n: int) -> bool
    decreases n,
{
    n <= 0 || (batch_resolvable(v, names, now, n - 1) && resolvable(batch_spec(v, names, now, n - 1).0, names[n - 1], now))
}

proof fn lemma_batch_prefix(v: SnsView, names: Seq<Seq<char>>, now: u64, i: int, n: int)
    requires
        0 <= i <= n,
        batch_resolvable(v, names, now, n),
    ensures
        batch_resolvable(v, names, now, i),
    decreases n - i,
{
    if i < n {
        lemma_batch_prefix(v, names, now, i, n - 1);
    }
}

proof fn lemma_batch_len(v: SnsView, names: Seq<Seq<char>>, now: u64, n: int)
    requires
        0 <= n,
    ensures
        batch_spec(v, names, now, n).1.len() == n,
    decreases n,
{
    if n > 0 {
        lemma_batch_len(v, names, now, n - 1);
    }
}

/// Outcome of registering `name` for `address` at `now`.
pub open spec fn register_spec(v: SnsView, name: Seq<char>, address: AccountId, now: u64) -> (SnsView, Result<(), SNSError>) {
    if v.config is None {
        (v, Err(SNSError::NotInitialized))
    } else if name.len() == 0 {
        (v, Err(SNSError::InvalidName))
    } else {
        (SnsView {
            slots: put_slot(v.slots, name, Some(RecordView { name, address, registered_at: now,
                expires_at: (now + v.config->Some_0.name_expiry_days * 86400) as u64, owner: address }), None),
            analytics: SNSAnalytics { total_names_registered: (v.analytics.total_names_registered + 1) as u32, ..v.analytics },
            ..v
        }, Ok(()))
    }
}

/// A registration of `name` at `now` cannot overflow.
pub open spec fn registrable(v: SnsView, name: Seq<char>, now: u64) -> bool {
    v.config is Some && name.len() > 0 ==>
        now + v.config->Some_0.name_expiry_days * 86400 <= u64::MAX && v.analytics.total_names_registered < u32::MAX
}

fn copy_record(r: &SNSRecord) -> (c: SNSRecord)
    ensures
        record_view(Some(c)) == record_view(Some(*r)),
{
    SNSRecord { name: r.name.clone(), address: r.address, registered_at: r.registered_at, expires_at: r.expires_at, owner: r.owner }
}

fn copy_cache(x: &SNSCache) -> (c: SNSCache)
    ensures
        cache_view(Some(c)) == cache_view(Some(*x)),
{
    SNSCache { name: x.name.clone(), address: x.address, cached_at: x.cached_at, ttl: x.ttl }
}

impl SNSIntegration {
    /// A service that has not been initialised.
    pub fn new() -> (r: Self)
        ensures
            r@.config is None,
            r@.slots.len() == 0,
            r@.analytics == (SNSAnalytics { total_names_registered: 0, total_resolutions: 0, cache_hit_rate: 0, resolution_latency_ms: 0 }),
    {
        let r = SNSIntegration {
            config: None,
            analytics: SNSAnalytics { total_names_registered: 0, total_resolutions: 0, cache_hit_rate: 0, resolution_latency_ms: 0 },
            slots: Vec::new(),
        };
        assert(r@.slots =~= Seq::<SlotView>::empty());
        r
    }

    /// Configures the service, once (the admin's authorisation is checked by the caller).
    pub fn initialize(&mut self, admin: AccountId, cache_ttl_seconds: u64, name_expiry_days: u64) -> (r: Result<(), SNSError>)
        ensures
            r == (if old(self)@.config is Some { Err(SNSError::AlreadyInitialized) } else { Ok(()) }),
            r is Ok ==> final(self)@ == (SnsView {
                config: Some(SNSConfig { admin, cache_ttl_seconds, name_expiry_days }),
                analytics: SNSAnalytics { total_names_registered: 0, total_resolutions: 0, cache_hit_rate: 0, resolution_latency_ms: 0 },
                ..old(self)@ }),
            r is Err ==> final(self)@ == old(self)@,
    {
        if self.config.is_some() {
            return Err(SNSError::AlreadyInitialized);
        }
        self.config = Some(SNSConfig { admin, cache_ttl_seconds, name_expiry_days });
        self.analytics = SNSAnalytics { total_names_registered: 0, total_resolutions: 0, cache_hit_rate: 0, resolution_latency_ms: 0 };
        Ok(())
    }

    fn slot_index(&self, name: &String) -> (r: Option<usize>)
        ensures
            r matches Some(i) ==> find_slot(self@.slots, name@) == Some(i as int),
            r is None ==> find_slot(self@.slots, name@) is None,
    {
        let ghost s = self@.slots;
        let n = self.slots.len();
        let mut i: usize = 0;
        let mut found: Option<usize> = None;
        while i < n
            invariant
                i <= n,
                n == self.slots@.len(),
                s == self@.slots,
                found matches Some(k) ==> find_slot(s.take(i as int), name@) == Some(k as int),
                found is None ==> find_slot(s.take(i as int), name@) is None,
            decreases n - i,
        {
            assert(s.take(i + 1).drop_last() =~= s.take(i as int));
            assert(s[i as int] == slot_view(self.slots@[i as int]));
            if found.is_none() && self.slots[i].name == *name {
                found = Some(i);
            }
            i = i + 1;
        }
        assert(s.take(n as int) =~= s);
        found
    }

    fn put(&mut self, name: String, record: Option<SNSRecord>, cache: Option<SNSCache>)
        ensures
            final(self)@ == (SnsView { slots: put_slot(old(self)@.slots, name@, record_view(record), cache_view(cache)), ..old(self)@ }),
    {
        let ghost s = self@.slots;
        let slot = NameSlot { name: name.clone(), record, cache };
        match self.slot_index(&name) {
            Some(i) => {
                proof { lemma_find_slot_bounds(s, name@); }
                self.slots.set(i, slot);
                assert(self@.slots =~= s.update(i as int, slot_view(slot)));
            },
            None => {
                self.slots.push(slot);
                assert(self@.slots =~= s.push(slot_view(slot)));
            },
        }
    }

    /// The record and cached resolution of a name, copied.
    fn read_slot(&self, name: &String) -> (r: (Option<SNSRecord>, Option<SNSCache>))
        ensures
            record_view(r.0) == record_of(self@, name@),
            cache_view(r.1) == cache_of(self@, name@),
    {
        proof { lemma_find_slot_bounds(self@.slots, name@); }
        match self.slot_index(name) {
            None => (None, None),
            Some(i) => {
                assert(self@.slots[i as int] == slot_view(self.slots@[i as int]));
                let rec = match &self.slots[i].record {
                    Some(r) => Some(copy_record(r)),
                    None => None,
                };
                let cache = match &self.slots[i].cache {
                    Some(c) => Some(copy_cache(c)),
                    None => None,
                };
                (rec, cache)
            },
        }
    }

    /// Registers (or replaces) the record of a name for an address, expiring
    /// after the configured days, and drops the name's cached resolution (the
    /// address's authorisation is checked by the caller).
    pub fn register_name(&mut self, name: String, address: AccountId, now: u64) -> (r: Result<(), SNSError>)
        requires
            registrable(old(self)@, name@, now),
        ensures
            (final(self)@, r) == register_spec(old(self)@, name@, address, now),
    {
        let config = match self.config {
            None => return Err(SNSError::NotInitialized),
            Some(c) => c,
        };
        if name.as_str().is_empty() {
            return Err(SNSError::InvalidName);
        }
        let expires_at = now + config.name_expiry_days * 86400;
        let rec = SNSRecord { name: name.clone(), address, registered_at: now, expires_at, owner: address };
        self.put(name, Some(rec), None);
        self.analytics.total_names_registered = self.analytics.total_names_registered + 1;
        Ok(())
    }

    /// Resolves a name, through its cached resolution while that is valid
    /// (see `resolve_spec`).
    pub fn resolve_name(&mut self, name: &String, now: u64) -> (r: Result<AccountId, SNSError>)
        requires
            resolvable(old(self)@, name@, now),
        ensures
            (final(self)@, r) == resolve_spec(old(self)@, name@, now),
    {
        let ghost v0 = self@;
        let config = match self.config {
            None => return Err(SNSError::NotInitialized),
            Some(c) => c,
        };
        let (rec, cache) = self.read_slot(name);
        let hit = match &cache {
            Some(c) => if now < c.cached_at + c.ttl { Some(c.address) } else { None },
            None => None,
        };
        if let Some(a) = hit {
            self.analytics.total_resolutions = self.analytics.total_resolutions + 1;
            if self.analytics.cache_hit_rate < 100 {
                self.analytics.cache_hit_rate = self.analytics.cache_hit_rate + 1;
            }
            return Ok(a);
        }
        let has_slot = self.slot_index(name).is_some();
        if has_slot {
            let kept = match &rec {
                Some(r) => Some(copy_record(r)),
                None => None,
            };
            self.put(name.clone(), kept, None);
        }
        assert(self@ == drop_cache(v0, name@));
        let r = match rec {
            None => return Err(SNSError::NameNotFound),
            Some(r) => r,
        };
        if r.expires_at < now {
            return Err(SNSError::NameExpired);
        }
        let address = r.address;
        proof { lemma_put_slot_twice(v0.slots, name@, record_view(Some(r)), None, record_view(Some(r)),
            Some(CacheView { name: name@, address, cached_at: now, ttl: config.cache_ttl_seconds })); }
        self.put(name.clone(), Some(r), Some(SNSCache { name: name.clone(), address, cached_at: now, ttl: config.cache_ttl_seconds }));
        self.analytics.total_resolutions = self.analytics.total_resolutions + 1;
        Ok(address)
    }

    /// Resolves names in order, each through `resolve_name`.
    pub fn resolve_names_batch(&mut self, names: &Vec<String>, now: u64) -> (r: Vec<Result<AccountId, SNSError>>)
        requires
            batch_resolvable(old(self)@, names@.map_values(|s: String| s@), now, names@.len() as int),
        ensures
            (final(self)@, r@) == batch_spec(old(self)@, names@.map_values(|s: String| s@), now, names@.len() as int),
    {
        let ghost v0 = self@;
        let ghost ns = names@.map_values(|s: String| s@);
        let mut results: Vec<Result<AccountId, SNSError>> = Vec::new();
        let mut i: usize = 0;
        while i < names.len()
            invariant
                i <= names@.len(),
                ns == names@.map_values(|s: String| s@),
                batch_resolvable(v0, ns, now, names@.len() as int),
                (self@, results@) == batch_spec(v0, ns, now, i as int),
            decreases names@.len() - i,
        {
            proof {
                lemma_batch_prefix(v0, ns, now, i + 1, names@.len() as int);
                lemma_batch_len(v0, ns, now, i as int);
            }
            let r = self.resolve_name(&names[i], now);
            results.push(r);
            i = i + 1;
        }
        results
    }

    /// Resolution before a transaction (same as `resolve_name`).
    pub fn validate_name(&mut self, name: &String, now: u64) -> (r: Result<AccountId, SNSError>)
        requires
            resolvable(old(self)@, name@, now),
        ensures
            (final(self)@, r) == resolve_spec(old(self)@, name@, now),
    {
        self.resolve_name(name, now)
    }

    /// The counters.
    pub fn get_analytics(&self) -> (r: Result<SNSAnalytics, SNSError>)
        ensures
            r == (if self@.config is None { Err(SNSError::NotInitialized) } else { Ok(self@.analytics) }),
    {
        if self.config.is_none() {
            return Err(SNSError::NotInitialized);
        }
        Ok(self.analytics)
    }

    /// Whether a name's registration has expired.
    pub fn is_name_expired(&self, name: &String, now: u64) -> (r: Result<bool, SNSError>)
        ensures
            r == (match record_of(self@, name@) { None => Err(SNSError::NameNotFound), Some(rec) => Ok(rec.expires_at < now) }),
    {
        let (rec, _) = self.read_slot(name);
        match rec {
            None => Err(SNSError::NameNotFound),
            Some(rec) => Ok(rec.expires_at < now),
        }
    }

    /// Extends a name to expire the configured days from now, keeping the
    /// rest of its record and its cached resolution (the owner's authorisation
    /// is checked by the caller).
    pub fn renew_name(&mut self, name: &String, now: u64) -> (r: Result<(), SNSError>)
        requires
            record_of(old(self)@, name@) is Some && old(self)@.config is Some
                ==> now + old(self)@.config->Some_0.name_expiry_days * 86400 <= u64::MAX,
        ensures
            r == (if record_of(old(self)@, name@) is None { Err(SNSError::NameNotFound) }
                else if old(self)@.config is None { Err(SNSError::NotInitialized) } else { Ok(()) }),
            r is Err ==> final(self)@ == old(self)@,
            r is Ok ==> final(self)@ == (SnsView {
                slots: put_slot(old(self)@.slots, name@,
                    Some(RecordView { expires_at: (now + old(self)@.config->Some_0.name_expiry_days * 86400) as u64,
                        ..record_of(old(self)@, name@)->Some_0 }),
                    cache_of(old(self)@, name@)),
                ..old(self)@ }),
    {
        let (rec, cache) = self.read_slot(name);
        let mut rec = match rec {
            None => return Err(SNSError::NameNotFound),
            Some(r) => r,
        };
        let config = match self.config {
            None => return Err(SNSError::NotInitialized),
            Some(c) => c,
        };
        rec.expires_at = now + config.name_expiry_days * 86400;
        self.put(name.clone(), Some(rec), cache);
        Ok(())
    }
}

/// A name resolves to the address it was last registered for, until it
/// expires, whatever other name is registered after it and whenever.
pub proof fn lemma_register_then_resolve(v: SnsView, name: Seq<char>, address: AccountId, now: u64,
    other: Seq<char>, other_address: AccountId, other_now: u64, later: u64)
    requires
        v.config is Some,
        name.len() > 0,
        other != name,
        later <= now + v.config->Some_0.name_expiry_days * 86400 <= u64::MAX,
    ensures
        ({
            let w = register_spec(v, name, address, now).0;
            let x = register_spec(w, other, other_address, other_now).0;
            resolve_spec(x, name, later).1 == Ok::<AccountId, SNSError>(address)
        }),
{
    let rec = Some(RecordView { name, address, registered_at: now,
        expires_at: (now + v.config->Some_0.name_expiry_days * 86400) as u64, owner: address });
    let w = register_spec(v, name, address, now).0;
    lemma_put_slot(v.slots, name, rec, None, name);
    if other.len() > 0 {
        let orec = Some(RecordView { name: other, address: other_address, registered_at: other_now,
            expires_at: (other_now + w.config->Some_0.name_expiry_days * 86400) as u64, owner: other_address });
        lemma_put_slot(w.slots, other, orec, None, name);
    }
}

/// Registering a name changes neither the record nor the cached resolution of
/// any other name, so every other name resolves as before.
pub proof fn lemma_register_keeps_other_names(v: SnsView, name: Seq<char>, address: AccountId, now: u64,
    other: Seq<char>, later: u64)
    requires
        other != name,
    ensures
        record_of(register_spec(v, name, address, now).0, other) == record_of(v, other),
        cache_of(register_spec(v, name, address, now).0, other) == cache_of(v, other),
        resolve_spec(register_spec(v, name, address, now).0, other, later).1 == resolve_spec(v, other, later).1,
{
    if v.config is Some && name.len() > 0 {
        let rec = Some(RecordView { name, address, registered_at: now,
            expires_at: (now + v.config->Some_0.name_expiry_days * 86400) as u64, owner: address });
        lemma_put_slot(v.slots, name, rec, None, other);
    }
}

} // verus!
