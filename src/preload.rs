use vstd::prelude::*;
use crate::keyed::{
    Slot,
    distinct_keys,
    has_key,
    lookup,
    upsert,
    lemma_upsert,
    lemma_skip_distinct,
    lemma_lookup_at,
    find_slot,
    upsert_slot,
};
use crate::thumbnail::{PixelBuffer, DecodeError};

verus! {

/// Entries dropped by one trim of a cache of capacity `cap`: a fifth of the
/// capacity, but at least ten.
pub open spec fn cleanup_count(cap: int) -> int {
    if cap / 5 > 10 {
        cap / 5
    } else {
        10
    }
}

/// The entries left after the trim that precedes an insert: when there are
/// more than `cap`, the `cleanup_count(cap)` oldest are dropped.
pub open spec fn trimmed<V>(s: Seq<Slot<V>>, cap: int) -> Seq<Slot<V>> {
    if s.len() > cap {
        let n = if cleanup_count(cap) < s.len() { cleanup_count(cap) } else { s.len() as int };
        s.skip(n)
    } else {
        s
    }
}

/// The shared cache of decoded thumbnails, keyed by path, oldest first.
pub struct PreloadCache {
    entries: Vec<Slot<PixelBuffer>>,
    capacity: usize,
}

impl PreloadCache {
    /// The entries, in order of insertion.
    pub closed spec fn slots(&self) -> Seq<Slot<PixelBuffer>> {
        self.entries@
    }

    pub closed spec fn spec_capacity(&self) -> nat {
        self.capacity as nat
    }

    /// Keys are distinct and the cache holds at most one entry beyond its
    /// capacity (the one inserted when it was exactly full).
    pub open spec fn wf(&self) -> bool {
        &&& distinct_keys(self.slots())
        &&& self.slots().len() <= self.spec_capacity() + 1
    }

    pub fn new(capacity: usize) -> (r: PreloadCache)
        ensures
            r.wf(),
            r.slots().len() == 0,
            r.spec_capacity() == capacity,
    {
        PreloadCache { entries: Vec::new(), capacity }
    }

    pub fn capacity(&self) -> (r: usize)
        ensures
            r == self.spec_capacity(),
    {
        self.capacity
    }

    pub fn len(&self) -> (r: usize)
        ensures
            r == self.slots().len(),
    {
        self.entries.len()
    }

    /// Whether a thumbnail for `key` is cached.
    pub fn contains(&self, key: &str) -> (r: bool)
        ensures
            r == has_key(self.slots(), key@),
    {
        find_slot(&self.entries, key).is_some()
    }

    /// The thumbnail cached for `key`; the entry stays in the cache.
    pub fn get(&self, key: &str) -> (r: Option<&PixelBuffer>)
        requires
            self.wf(),
        ensures
            match r {
                Some(b) => lookup(self.slots(), key@) == Some(*b),
                None => lookup(self.slots(), key@) is None,
            },
    {
        match find_slot(&self.entries, key) {
            Some(i) => {
                proof {
                    lemma_lookup_at(self.entries@, i as int);
                }
                Some(&self.entries[i].value)
            },
            None => None,
        }
    }

    /// Inserts the thumbnail for `key`, first trimming the oldest entries
    /// when the cache has grown past its capacity.
    pub fn insert(&mut self, key: String, pixels: PixelBuffer)
        requires
            old(self).wf(),
        ensures
            final(self).wf(),
            final(self).spec_capacity() == old(self).spec_capacity(),
            final(self).slots() == upsert(
                trimmed(old(self).slots(), old(self).spec_capacity() as int),
                key,
                pixels,
            ),
            old(self).slots().len() > old(self).spec_capacity() >= 1 ==> final(self).slots().len()
                <= old(self).spec_capacity(),
            lookup(final(self).slots(), key@) == Some(pixels),
    {
        let ghost cap = self.capacity as int;
        if self.entries.len() > self.capacity {
            let fifth = self.capacity / 5;
            let count: usize = if fifth > 10 { fifth } else { 10 };
            let n: usize = if count < self.entries.len() { count } else { self.entries.len() };
            proof {
                lemma_skip_distinct(self.entries@, n as int);
            }
            let rest = self.entries.split_off(n);
            self.entries = rest;
        }
        assert(self.entries@ == trimmed(old(self).slots(), cap));
        proof {
            lemma_upsert(self.entries@, key, pixels);
            lemma_insert_size(old(self).slots(), cap, key, pixels);
        }
        upsert_slot(&mut self.entries, key, pixels);
    }

    /// Empties the cache; its capacity stays.
    pub fn clear(&mut self)
        ensures
            final(self).wf(),
            final(self).slots().len() == 0,
            final(self).spec_capacity() == old(self).spec_capacity(),
    {
        self.entries = Vec::new();
    }

    /// Keeps the outcome of one preload decode: a thumbnail is inserted under
    /// `key`, a failure leaves the cache as it was. Returns whether it stored.
    pub fn store_result(&mut self, key: String, result: Result<PixelBuffer, DecodeError>) -> (r:
        bool)
        requires
            old(self).wf(),
        ensures
            final(self).wf(),
            final(self).spec_capacity() == old(self).spec_capacity(),
            result is Ok && old(self).slots().len() > old(self).spec_capacity() >= 1 ==> final(self).slots().len() <= old(self).spec_capacity(),
            r == result is Ok,
            match result {
                Ok(b) => final(self).slots() == upsert(
                    trimmed(old(self).slots(), old(self).spec_capacity() as int),
                    key,
                    b,
                ) && lookup(final(self).slots(), key@) == Some(b),
                Err(_) => final(self).slots() == old(self).slots(),
            },
    {
        match result {
            Ok(pixels) => {
                self.insert(key, pixels);
                true
            },
            Err(_) => false,
        }
    }
}

proof fn lemma_insert_size<V>(s: Seq<Slot<V>>, cap: int, key: String, value: V)
    requires
        distinct_keys(s),
        cap >= 0,
        s.len() <= cap + 1,
    ensures
        upsert(trimmed(s, cap), key, value).len() <= cap + 1,
        s.len() > cap && cap >= 1 ==> upsert(trimmed(s, cap), key, value).len() <= cap,
{
    let t = trimmed(s, cap);
    if s.len() > cap {
        let n = if cleanup_count(cap) < s.len() { cleanup_count(cap) } else { s.len() as int };
        lemma_skip_distinct(s, n);
    }
    lemma_upsert(t, key, value);
}

/// Once the cache holds more entries than its (non-zero) capacity, the next
/// insert brings it back to at most its capacity; and an insert never takes a
/// well-formed cache past one entry over capacity.
pub proof fn lemma_capacity_bound(cache: PreloadCache, key: String, pixels: PixelBuffer)
    requires
        cache.wf(),
    ensures
        upsert(trimmed(cache.slots(), cache.spec_capacity() as int), key, pixels).len()
            <= cache.spec_capacity() + 1,
        cache.slots().len() > cache.spec_capacity() >= 1 ==> upsert(
            trimmed(cache.slots(), cache.spec_capacity() as int),
            key,
            pixels,
        ).len() <= cache.spec_capacity(),
{
    lemma_insert_size(cache.slots(), cache.spec_capacity() as int, key, pixels);
}

/// A thumbnail just inserted is found under its key.
pub proof fn lemma_inserted_is_cached(cache: PreloadCache, key: String, pixels: PixelBuffer)
    requires
        cache.wf(),
    ensures
        lookup(upsert(trimmed(cache.slots(), cache.spec_capacity() as int), key, pixels), key@)
            == Some(pixels),
{
    let s = cache.slots();
    let cap = cache.spec_capacity() as int;
    if s.len() > cap {
        let n = if cleanup_count(cap) < s.len() { cleanup_count(cap) } else { s.len() as int };
        lemma_skip_distinct(s, n);
    }
    lemma_upsert(trimmed(s, cap), key, pixels);
}

} // verus!
