//! A small key-value table, the model of a contract's keyed storage: the
//! latest value written under each key, viewed as a finite map.
use vstd::prelude::*;

verus! {

/// Keys that can be compared at run time.
pub trait TableKey: Copy + Sized {
    fn same(&self, other: &Self) -> (r: bool)
        ensures
            r == (*self == *other);
}

impl TableKey for u64 {
    fn same(&self, other: &Self) -> (r: bool) {
        *self == *other
    }
}

/// A key made of two identifiers (an account and an asset, say).
#[derive(Clone, Copy, Debug, PartialEq, Eq, Structural)]
pub struct PairKey {
    pub first: u64,
    pub second: u64,
}

impl TableKey for PairKey {
    fn same(&self, other: &Self) -> (r: bool) {
        self.first == other.first && self.second == other.second
    }
}

/// The value of the last entry for `k`.
pub open spec fn lookup<K, V>(s: Seq<(K, V)>, k: K) -> Option<V>
    decreases s.len(),
{
    if s.len() == 0 {
        None
    } else if s.last().0 == k {
        Some(s.last().1)
    } else {
        lookup(s.drop_last(), k)
    }
}

/// The entries of other keys, in order.
pub open spec fn without<K, V>(s: Seq<(K, V)>, k: K) -> Seq<(K, V)>
    decreases s.len(),
{
    if s.len() == 0 {
        s
    } else if s.last().0 == k {
        without(s.drop_last(), k)
    } else {
        without(s.drop_last(), k).push(s.last())
    }
}

/// The map of the latest value under each key.
pub open spec fn as_map<K, V>(s: Seq<(K, V)>) -> Map<K, V> {
    Map::new(|k: K| lookup(s, k) is Some, |k: K| lookup(s, k)->Some_0)
}

proof fn lemma_lookup_without<K, V>(s: Seq<(K, V)>, k: K, j: K)
    ensures
        lookup(without(s, k), j) == (if j == k { None } else { lookup(s, j) }),
    decreases s.len(),
{
    if s.len() > 0 {
        lemma_lookup_without(s.drop_last(), k, j);
        if s.last().0 != k {
            assert(without(s, k).drop_last() =~= without(s.drop_last(), k));
        }
    }
}

/// A keyed table.
pub struct Table<K, V> {
    entries: Vec<(K, V)>,
}

impl<K, V> View for Table<K, V> {
    type V = Map<K, V>;

    closed spec fn view(&self) -> Map<K, V> {
        as_map(self.entries@)
    }
}

impl<K: TableKey, V: Copy> Table<K, V> {
    /// An empty table.
    pub fn new() -> (r: Self)
        ensures
            r@ == Map::<K, V>::empty(),
    {
        let r = Table { entries: Vec::new() };
        assert(r@ =~= Map::<K, V>::empty());
        r
    }

    /// The value stored under `k`.
    pub fn get(&self, k: &K) -> (r: Option<V>)
        ensures
            r == (if self@.contains_key(*k) { Some(self@[*k]) } else { None }),
    {
        let n = self.entries.len();
        let mut found: Option<V> = None;
        let mut i: usize = 0;
        while i < n
            invariant
                i <= n,
                n == self.entries@.len(),
                found == lookup(self.entries@.take(i as int), *k),
            decreases n - i,
        {
            assert(self.entries@.take(i + 1).drop_last() =~= self.entries@.take(i as int));
            if self.entries[i].0.same(k) {
                found = Some(self.entries[i].1);
            }
            i = i + 1;
        }
        assert(self.entries@.take(n as int) =~= self.entries@);
        found
    }

    /// Whether a value is stored under `k`.
    pub fn contains(&self, k: &K) -> (r: bool)
        ensures
            r == self@.contains_key(*k),
    {
        self.get(k).is_some()
    }

    fn drop_key(&mut self, k: &K)
        ensures
            final(self).entries@ == without(old(self).entries@, *k),
    {
        let ghost s = self.entries@;
        let n = self.entries.len();
        let mut kept: Vec<(K, V)> = Vec::new();
        let mut i: usize = 0;
        while i < n
            invariant
                i <= n,
                n == self.entries@.len(),
                s == self.entries@,
                kept@ == without(s.take(i as int), *k),
            decreases n - i,
        {
            assert(s.take(i + 1).drop_last() =~= s.take(i as int));
            let e = self.entries[i];
            if !e.0.same(k) {
                kept.push(e);
            }
            i = i + 1;
        }
        assert(s.take(n as int) =~= s);
        self.entries = kept;
    }

    /// Stores `v` under `k`, replacing any earlier value.
    pub fn set(&mut self, k: K, v: V)
        ensures
            final(self)@ == old(self)@.insert(k, v),
    {
        let ghost s = self.entries@;
        self.drop_key(&k);
        self.entries.push((k, v));
        proof {
            assert forall|j: K| #[trigger] lookup(self.entries@, j) == (if j == k { Some(v) } else { lookup(s, j) }) by {
                lemma_lookup_without(s, k, j);
                assert(self.entries@.drop_last() =~= without(s, k));
            }
            assert(self@ =~= as_map(s).insert(k, v));
        }
    }

    /// Removes the value stored under `k`.
    pub fn remove(&mut self, k: &K)
        ensures
            final(self)@ == old(self)@.remove(*k),
    {
        let ghost s = self.entries@;
        self.drop_key(k);
        proof {
            assert forall|j: K| #[trigger] lookup(self.entries@, j) == (if j == *k { None } else { lookup(s, j) }) by {
                lemma_lookup_without(s, *k, j);
            }
            assert(self@ =~= as_map(s).remove(*k));
        }
    }
}

/// An element-by-element copy of a vector.
pub fn copy_vec<T: Copy>(v: &Vec<T>) -> (r: Vec<T>)
    ensures
        r@ == v@,
{
    let mut r: Vec<T> = Vec::new();
    let mut i: usize = 0;
    while i < v.len()
        invariant
            i <= v.len(),
            r@ == v@.take(i as int),
        decreases v.len() - i,
    {
        r.push(v[i]);
        assert(v@.take(i + 1) =~= v@.take(i as int).push(v@[i as int]));
        i = i + 1;
    }
    assert(v@.take(v.len() as int) =~= v@);
    r
}

/// Whether `x` occurs in `v`.
pub fn vec_contains(v: &Vec<u64>, x: u64) -> (r: bool)
    ensures
        r == v@.contains(x),
{
    let mut i: usize = 0;
    while i < v.len()
        invariant
            i <= v.len(),
            forall|j: int| 0 <= j < i ==> v@[j] != x,
        decreases v.len() - i,
    {
        if v[i] == x {
            return true;
        }
        i = i + 1;
    }
    false
}

} // verus!
