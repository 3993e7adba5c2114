//! A bounded cache whose entries expire after a time-to-live; when full, the
//! oldest entry makes room for a new one.
use vstd::prelude::*;
use std::time::Instant;
use crate::clock::{instant_now, nanos_since};
use crate::text::str_eq;
use crate::keyed::{
    entry_map, keys_unique, lemma_map_at, lemma_map_contains, lemma_map_len, lemma_map_push,
    lemma_map_remove, lemma_map_update,
};

verus! {

/// Keys that the cache compares by their views.
pub trait CacheKey: View + Sized {
    fn same_key(&self, other: &Self) -> (r: bool)
        ensures
            r == (self@ == other@);
}

impl CacheKey for String {
    fn same_key(&self, other: &Self) -> (r: bool) {
        str_eq(self.as_str(), other.as_str())
    }
}

impl CacheKey for u64 {
    fn same_key(&self, other: &Self) -> (r: bool) {
        *self == *other
    }
}

/// What a lookup at time `now` gives: the value, unless more than `ttl`
/// nanoseconds have passed since it was stored.
pub open spec fn fresh_value<KV, V>(m: Map<KV, (V, u128)>, k: KV, now: u128, ttl: u128) -> Option<V> {
    if m.dom().contains(k) && !(now > m[k].1 && now - m[k].1 > ttl) {
        Some(m[k].0)
    } else {
        None
    }
}

/// `k` has no later creation time than any other key of `m`.
pub open spec fn is_oldest<KV, V>(m: Map<KV, (V, u128)>, k: KV) -> bool {
    m.dom().contains(k) && forall|j: KV| #[trigger] m.dom().contains(j) ==> m[k].1 <= m[j].1
}

/// How storing `key: value` at time `now` changes a cache of the given
/// capacity: a full (and non-empty) cache first drops an oldest entry.
pub open spec fn store_outcome<KV, V>(
    before: Map<KV, (V, u128)>,
    after: Map<KV, (V, u128)>,
    key: KV,
    value: V,
    now: u128,
    capacity: nat,
) -> bool {
    if before.len() >= capacity && before.len() > 0 {
        exists|gone: KV|
            #[trigger] is_oldest(before, gone) && after == before.remove(gone).insert(key, (value, now))
    } else {
        after == before.insert(key, (value, now))
    }
}

/// Law: a value just stored is read back under its key for as long as its
/// time-to-live lasts, whatever entry the store dropped.
pub proof fn law_stored_value_is_read_back<KV, V>(
    before: Map<KV, (V, u128)>,
    after: Map<KV, (V, u128)>,
    key: KV,
    value: V,
    now: u128,
    capacity: nat,
    later: u128,
    ttl: u128,
)
    requires
        store_outcome(before, after, key, value, now, capacity),
        later <= now + ttl,
    ensures
        fresh_value(after, key, later, ttl) == Some(value),
{
    if before.len() >= capacity && before.len() > 0 {
        let gone = choose|gone: KV|
            #[trigger] is_oldest(before, gone) && after == before.remove(gone).insert(key, (value, now));
        assert(after.dom().contains(key));
        assert(after[key] == (value, now));
    } else {
        assert(after[key] == (value, now));
    }
}

/// Law: a value stored at `now` reads as missing once more than its
/// time-to-live has passed, whatever entry the store dropped.
pub proof fn law_stored_value_expires<KV, V>(
    before: Map<KV, (V, u128)>,
    after: Map<KV, (V, u128)>,
    key: KV,
    value: V,
    now: u128,
    capacity: nat,
    later: u128,
    ttl: u128,
)
    requires
        store_outcome(before, after, key, value, now, capacity),
        later > now + ttl,
    ensures
        fresh_value(after, key, later, ttl) is None,
{
    if before.len() >= capacity && before.len() > 0 {
        let gone = choose|gone: KV|
            #[trigger] is_oldest(before, gone) && after == before.remove(gone).insert(key, (value, now));
        assert(after[key] == (value, now));
    } else {
        assert(after[key] == (value, now));
    }
}

/// Law: storing never takes a cache above its capacity (or one entry, for a
/// capacity of zero).
pub proof fn law_store_respects_capacity<KV, V>(
    before: Map<KV, (V, u128)>,
    after: Map<KV, (V, u128)>,
    key: KV,
    value: V,
    now: u128,
    capacity: nat,
)
    requires
        store_outcome(before, after, key, value, now, capacity),
        before.dom().finite(),
        before.len() <= if capacity == 0 { 1 } else { capacity },
    ensures
        after.dom().finite(),
        after.len() <= if capacity == 0 { 1 } else { capacity },
{
    if before.len() >= capacity && before.len() > 0 {
        let gone = choose|gone: KV|
            #[trigger] is_oldest(before, gone) && after == before.remove(gone).insert(key, (value, now));
        let removed = before.remove(gone);
        assert(removed.len() == before.len() - 1);
        if removed.dom().contains(key) {
            assert(after.dom() =~= removed.dom());
        } else {
            assert(after.dom() =~= removed.dom().insert(key));
        }
    } else {
        if before.dom().contains(key) {
            assert(after.dom() =~= before.dom());
        } else {
            assert(after.dom() =~= before.dom().insert(key));
        }
    }
}

/// Law: after an invalidation the key reads as missing.
pub proof fn law_invalidated_key_is_missing<KV, V>(
    before: Map<KV, (V, u128)>,
    key: KV,
    now: u128,
    ttl: u128,
)
    ensures
        fresh_value(before.remove(key), key, now, ttl) is None,
{
}

/// A bounded cache of values by key, whose entries expire after a
/// time-to-live measured on the monotonic clock from the cache's origin.
pub struct Cache<K, V> {
    entries: Vec<(K, (V, u128))>,
    ttl: u128,
    max_entries: usize,
    origin: Instant,
}

impl<K: CacheKey, V> View for Cache<K, V> {
    type V = Map<K::V, (V, u128)>;

    closed spec fn view(&self) -> Map<K::V, (V, u128)> {
        entry_map(self.entries@)
    }
}

impl<K: CacheKey, V: Clone> Cache<K, V> {
    /// The cache's own invariant: no key appears twice.
    pub closed spec fn wf(&self) -> bool {
        keys_unique(self.entries@)
    }

    /// The time-to-live, in nanoseconds.
    pub closed spec fn ttl_nanos(&self) -> u128 {
        self.ttl
    }

    /// The number of entries at which storing first drops the oldest one.
    pub closed spec fn capacity(&self) -> nat {
        self.max_entries as nat
    }

    /// A well-formed cache holds finitely many entries.
    pub proof fn lemma_contents_finite(&self)
        requires
            self.wf(),
        ensures
            self@.dom().finite(),
    {
        lemma_map_len(self.entries@);
    }

    /// An empty cache whose entries live for `ttl_nanos` nanoseconds (a
    /// `Duration` is given by its `as_nanos`).
    pub fn new(ttl_nanos: u128, max_entries: usize) -> (r: Self)
        ensures
            r@.dom().finite(),
            r.wf(),
            r@ == Map::<K::V, (V, u128)>::empty(),
            r.ttl_nanos() == ttl_nanos,
            r.capacity() == max_entries,
    {
        let r = Cache { entries: Vec::new(), ttl: ttl_nanos, max_entries, origin: instant_now() };
        proof {
            assert(entry_map(r.entries@) =~= Map::<K::V, (V, u128)>::empty());
        }
        r
    }

    fn find(&self, key: &K) -> (r: Option<usize>)
        requires
            self.wf(),
        ensures
            match r {
                Some(i) => i < self.entries@.len() && self.entries@[i as int].0@ == key@,
                None => !self@.dom().contains(key@),
            },
    {
        let mut i: usize = 0;
        while i < self.entries.len()
            invariant
                i <= self.entries@.len(),
                forall|j: int| 0 <= j < i ==> self.entries@[j].0@ != key@,
            decreases self.entries.len() - i,
        {
            if self.entries[i].0.same_key(key) {
                return Some(i);
            }
            i = i + 1;
        }
        proof {
            lemma_map_contains(self.entries@, key@);
        }
        None
    }

    /// The value under `key` as of time `now` (nanoseconds since the cache's
    /// origin): a clone of it unless it is missing or older than the
    /// time-to-live.
    pub fn get_at(&self, key: &K, now: u128) -> (r: Option<V>)
        requires
            self.wf(),
        ensures
            r is Some <==> fresh_value(self@, key@, now, self.ttl_nanos()) is Some,
            r matches Some(v) ==> cloned(fresh_value(self@, key@, now, self.ttl_nanos())->0, v),
    {
        match self.find(key) {
            Some(i) => {
                proof {
                    lemma_map_at(self.entries@, i as int);
                }
                let created = self.entries[i].1.1;
                if now > created && now - created > self.ttl {
                    None
                } else {
                    Some(self.entries[i].1.0.clone())
                }
            },
            None => None,
        }
    }

    /// The value under `key` as of the clock's reading now.
    pub fn get(&self, key: &K) -> (r: Option<V>)
        requires
            self.wf(),
        ensures
            exists|now: u128|
                (r is Some <==> #[trigger] fresh_value(self@, key@, now, self.ttl_nanos()) is Some) && (
                r matches Some(v) ==> cloned(fresh_value(self@, key@, now, self.ttl_nanos())->0, v)),
            r matches Some(v) ==> self@.dom().contains(key@) && cloned(self@[key@].0, v),
            !self@.dom().contains(key@) ==> r is None,
    {
        let now = nanos_since(&self.origin);
        let r = self.get_at(key, now);
        proof {
            assert(r is Some <==> fresh_value(self@, key@, now, self.ttl_nanos()) is Some);
        }
        r
    }

    fn oldest_index(&self) -> (r: usize)
        requires
            self.entries@.len() > 0,
        ensures
            r < self.entries@.len(),
            forall|j: int| 0 <= j < self.entries@.len() ==> self.entries@[r as int].1.1 <= #[trigger] self.entries@[j].1.1,
    {
        let mut best: usize = 0;
        let mut i: usize = 1;
        while i < self.entries.len()
            invariant
                self.entries@.len() > 0,
                best < i <= self.entries@.len(),
                forall|j: int| 0 <= j < i ==> self.entries@[best as int].1.1 <= #[trigger] self.entries@[j].1.1,
            decreases self.entries.len() - i,
        {
            if self.entries[i].1.1 < self.entries[best].1.1 {
                best = i;
            }
            i = i + 1;
        }
        best
    }

    /// Stores `key: value` created at time `now`. A cache holding at least
    /// `capacity` entries (and at least one) first drops an oldest entry.
    pub fn set_at(&mut self, key: K, value: V, now: u128)
        requires
            old(self).wf(),
        ensures
            final(self)@.dom().finite(),
            final(self).wf(),
            final(self).ttl_nanos() == old(self).ttl_nanos(),
            final(self).capacity() == old(self).capacity(),
            store_outcome(old(self)@, final(self)@, key@, value, now, old(self).capacity()),
    {
        let ghost before = self@;
        proof {
            lemma_map_len(self.entries@);
        }
        let ghost mid = before;
        if self.entries.len() >= self.max_entries && self.entries.len() > 0 {
            let oldest = self.oldest_index();
            let ghost s = self.entries@;
            proof {
                lemma_map_remove(s, oldest as int);
                lemma_map_at(s, oldest as int);
                assert forall|j: K::V| #[trigger] before.dom().contains(j) implies before[s[oldest as int].0@].1 <= before[j].1 by {
                    lemma_map_contains(s, j);
                    let k = choose|k: int| 0 <= k < s.len() && s[k].0@ == j;
                    lemma_map_at(s, k);
                }
                assert(is_oldest(before, s[oldest as int].0@));
                mid = before.remove(s[oldest as int].0@);
            }
            self.entries.remove(oldest);
        }
        assert(self@ == mid);
        let ghost kv = key@;
        match self.find(&key) {
            Some(i) => {
                proof {
                    lemma_map_update(self.entries@, i as int, (key, (value, now)));
                }
                self.entries.set(i, (key, (value, now)));
            },
            None => {
                proof {
                    lemma_map_push(self.entries@, (key, (value, now)));
                }
                self.entries.push((key, (value, now)));
            },
        }
        assert(self@ == mid.insert(kv, (value, now)));
    }

    /// Stores `key: value`, created now as the clock reads it.
    pub fn set(&mut self, key: K, value: V)
        requires
            old(self).wf(),
        ensures
            final(self)@.dom().finite(),
            final(self).wf(),
            final(self).ttl_nanos() == old(self).ttl_nanos(),
            final(self).capacity() == old(self).capacity(),
            exists|now: u128|
                store_outcome(old(self)@, final(self)@, key@, value, now, old(self).capacity()),
    {
        let now = nanos_since(&self.origin);
        self.set_at(key, value, now);
    }

    /// Drops the entry under `key`, if any.
    pub fn invalidate(&mut self, key: &K)
        requires
            old(self).wf(),
        ensures
            final(self)@.dom().finite(),
            final(self).wf(),
            final(self).ttl_nanos() == old(self).ttl_nanos(),
            final(self).capacity() == old(self).capacity(),
            final(self)@ == old(self)@.remove(key@),
    {
        match self.find(key) {
            Some(i) => {
                proof {
                    lemma_map_remove(self.entries@, i as int);
                }
                self.entries.remove(i);
            },
            None => {
                proof {
                    assert(self@.remove(key@) =~= self@);
                }
            },
        }
        proof {
            lemma_map_len(self.entries@);
        }
    }

    /// Drops every entry.
    pub fn clear(&mut self)
        requires
            old(self).wf(),
        ensures
            final(self)@.dom().finite(),
            final(self).wf(),
            final(self).ttl_nanos() == old(self).ttl_nanos(),
            final(self).capacity() == old(self).capacity(),
            final(self)@ == Map::<K::V, (V, u128)>::empty(),
    {
        self.entries.clear();
        proof {
            assert(entry_map(self.entries@) =~= Map::<K::V, (V, u128)>::empty());
        }
    }

    /// The number of entries.
    pub fn len(&self) -> (r: usize)
        requires
            self.wf(),
        ensures
            r == self@.len(),
    {
        proof {
            lemma_map_len(self.entries@);
        }
        self.entries.len()
    }

    /// The cache is meant to be shared between asynchronous tasks.
    pub fn is_async(&self) -> (r: bool)
        ensures
            r,
    {
        true
    }
}

impl<K: CacheKey, V: Clone> Default for Cache<K, V> {
    /// A cache of 1000 entries that live 300 seconds.
    fn default() -> (r: Self)
        ensures
            r@.dom().finite(),
            r.wf(),
            r@ == Map::<K::V, (V, u128)>::empty(),
            r.ttl_nanos() == 300_000_000_000,
            r.capacity() == 1000,
    {
        Self::new(300_000_000_000, 1000)
    }
}

} // verus!
