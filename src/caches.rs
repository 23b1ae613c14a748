use vstd::prelude::*;
use crate::keyed::{
    Slot,
    distinct_keys,
    has_key,
    lookup,
    upsert,
    lemma_upsert,
    lemma_lookup_at,
    find_slot,
    upsert_slot,
};
use crate::preload::trimmed;
use crate::text::{lemma_lt_total, seq_lt, compare_str, lemma_lt_transitive, lemma_lt_irreflexive};

verus! {

/// A texture uploaded on the render thread, with its pixel dimensions.
pub struct Texture<T> {
    pub handle: T,
    pub width: u32,
    pub height: u32,
}

/// The render thread's cache of uploaded textures, keyed by path.
pub struct TextureCache<T> {
    entries: Vec<Slot<Texture<T>>>,
}

impl<T> TextureCache<T> {
    pub closed spec fn slots(&self) -> Seq<Slot<Texture<T>>> {
        self.entries@
    }

    pub open spec fn wf(&self) -> bool {
        distinct_keys(self.slots())
    }

    pub fn new() -> (r: TextureCache<T>)
        ensures
            r.wf(),
            r.slots().len() == 0,
    {
        TextureCache { entries: Vec::new() }
    }

    pub fn len(&self) -> (r: usize)
        ensures
            r == self.slots().len(),
    {
        self.entries.len()
    }

    pub fn contains(&self, key: &str) -> (r: bool)
        ensures
            r == has_key(self.slots(), key@),
    {
        find_slot(&self.entries, key).is_some()
    }

    pub fn get(&self, key: &str) -> (r: Option<&Texture<T>>)
        requires
            self.wf(),
        ensures
            match r {
                Some(t) => lookup(self.slots(), key@) == Some(*t),
                None => lookup(self.slots(), key@) is None,
            },
    {
        match find_slot(&self.entries, key) {
            Some(i) => {
                proof {
                    lemma_lookup_at(self.entries@, i as int);
                }
                Some(&self.entries[i].value)
            },
            None => None,
        }
    }

    /// Stores the texture for `key`, replacing an earlier one wholesale.
    pub fn insert(&mut self, key: String, texture: Texture<T>)
        requires
            old(self).wf(),
        ensures
            final(self).wf(),
            final(self).slots() == upsert(old(self).slots(), key, texture),
    {
        proof {
            lemma_upsert(self.entries@, key, texture);
        }
        upsert_slot(&mut self.entries, key, texture);
    }
}

/// A full-size preview texture with what is needed to trust it later: the
/// byte length and modification time of the file it was decoded from.
pub struct CachedImage<T> {
    pub texture: T,
    pub width: u32,
    pub height: u32,
    pub file_size: u64,
    pub last_modified: u64,
}

/// Keys ascend strictly in lexicographic order.
pub open spec fn sorted_keys<V>(s: Seq<Slot<V>>) -> bool {
    forall|i: int, j: int| 0 <= i < j < s.len() ==> seq_lt(s[i].key@, s[j].key@)
}

/// Where `k` belongs in a sorted sequence: after every smaller key.
pub open spec fn is_insertion_point<V>(s: Seq<Slot<V>>, k: Seq<char>, p: int) -> bool {
    &&& 0 <= p <= s.len()
    &&& forall|i: int| 0 <= i < p ==> seq_lt(s[i].key@, k)
    &&& forall|i: int| p <= i < s.len() ==> !seq_lt(s[i].key@, k)
}

pub open spec fn insertion_point<V>(s: Seq<Slot<V>>, k: Seq<char>) -> int {
    choose|p: int| is_insertion_point(s, k, p)
}

/// `s` with `value` stored under `key` at its sorted place.
pub open spec fn sorted_upsert<V>(s: Seq<Slot<V>>, key: String, value: V) -> Seq<Slot<V>> {
    let p = insertion_point(s, key@);
    if p < s.len() && s[p].key@ == key@ {
        s.update(p, Slot { key, value })
    } else {
        s.insert(p, Slot { key, value })
    }
}

pub proof fn lemma_sorted_distinct<V>(s: Seq<Slot<V>>)
    requires
        sorted_keys(s),
    ensures
        distinct_keys(s),
{
    assert forall|i: int, j: int| 0 <= i < j < s.len() implies s[i].key@ != s[j].key@ by {
        lemma_lt_irreflexive(s[i].key@, s[j].key@);
    }
}

proof fn lemma_insertion_point_unique<V>(s: Seq<Slot<V>>, k: Seq<char>, p: int)
    requires
        is_insertion_point(s, k, p),
    ensures
        insertion_point(s, k) == p,
{
    let q = insertion_point(s, k);
    assert(is_insertion_point(s, k, q));
    if q < p {
        assert(seq_lt(s[q].key@, k));
    } else if p < q {
        assert(seq_lt(s[p].key@, k));
    }
}

/// Sorted upserting keeps the keys sorted, makes `key` map to `value` and
/// keeps every other key's value.
pub proof fn lemma_sorted_upsert<V>(s: Seq<Slot<V>>, key: String, value: V, p: int)
    requires
        sorted_keys(s),
        is_insertion_point(s, key@, p),
        p < s.len() && s[p].key@ != key@ ==> seq_lt(key@, s[p].key@),
    ensures
        sorted_keys(sorted_upsert(s, key, value)),
        lookup(sorted_upsert(s, key, value), key@) == Some(value),
        forall|k: Seq<char>| k != key@ ==> lookup(sorted_upsert(s, key, value), k) == lookup(s, k),
        sorted_upsert(s, key, value).len() <= s.len() + 1,
{
    lemma_insertion_point_unique(s, key@, p);
    let t = sorted_upsert(s, key, value);
    lemma_sorted_distinct(s);
    if p < s.len() && s[p].key@ == key@ {
        assert(sorted_keys(t));
        assert(t == upsert(s, key, value)) by {
            assert(has_key(s, key@));
            let j = choose|j: int| 0 <= j < s.len() && s[j].key@ == key@;
            if j != p {
                assert(s[j].key@ != s[p].key@);
            }
        }
        lemma_upsert(s, key, value);
    } else {
        assert forall|i: int, j: int| 0 <= i < j < t.len() implies seq_lt(t[i].key@, t[j].key@) by {
            if j == p {
            } else if i == p {
                assert(t[j] == s[j - 1]);
                if j - 1 > p {
                    lemma_lt_transitive(key@, s[p].key@, s[j - 1].key@);
                }
            } else if i < p && j > p {
                assert(t[j] == s[j - 1]);
            } else if j < p {
            } else {
                assert(t[i] == s[i - 1]);
                assert(t[j] == s[j - 1]);
            }
        }
        assert(!has_key(s, key@)) by {
            if has_key(s, key@) {
                let j = choose|j: int| 0 <= j < s.len() && s[j].key@ == key@;
                if j < p {
                    lemma_lt_irreflexive(s[j].key@, key@);
                } else if j > p {
                    lemma_lt_transitive(key@, s[p].key@, s[j].key@);
                    lemma_lt_irreflexive(key@, s[j].key@);
                }
            }
        }
        lemma_sorted_distinct(t);
        lemma_lookup_at(t, p);
        assert forall|k: Seq<char>| k != key@ implies lookup(t, k) == lookup(s, k) by {
            if has_key(s, k) {
                let j = choose|j: int| 0 <= j < s.len() && s[j].key@ == k;
                lemma_lookup_at(s, j);
                if j < p {
                    assert(t[j] == s[j]);
                    lemma_lookup_at(t, j);
                } else {
                    assert(t[j + 1] == s[j]);
                    lemma_lookup_at(t, j + 1);
                }
            } else if has_key(t, k) {
                let j = choose|j: int| 0 <= j < t.len() && t[j].key@ == k;
                if j < p {
                    assert(s[j].key@ == k);
                } else if j > p {
                    assert(s[j - 1].key@ == k);
                }
            }
        }
    }
}

/// The entry for `key` if it is still trusted: the file's current byte
/// length, when it could be read, equals the one recorded.
pub open spec fn valid_entry<T>(s: Seq<Slot<CachedImage<T>>>, key: Seq<char>, current_size: Option<
    u64,
>) -> Option<CachedImage<T>> {
    match lookup(s, key) {
        Some(e) => if current_size == Some(e.file_size) {
            Some(e)
        } else {
            None
        },
        None => None,
    }
}

proof fn lemma_skip_sorted<V>(s: Seq<Slot<V>>, n: int)
    requires
        sorted_keys(s),
        0 <= n <= s.len(),
    ensures
        sorted_keys(s.skip(n)),
{
    assert forall|i: int, j: int| 0 <= i < j < s.skip(n).len() implies seq_lt(
        s.skip(n)[i].key@,
        s.skip(n)[j].key@,
    ) by {
        assert(s.skip(n)[i] == s[i + n]);
        assert(s.skip(n)[j] == s[j + n]);
    }
}

/// The validated cache of full-size previews, bounded by `max_size`; when it
/// overflows, the lexicographically first keys are dropped.
pub struct MainCache<T> {
    entries: Vec<Slot<CachedImage<T>>>,
    max_size: usize,
}

impl<T> MainCache<T> {
    /// The entries in ascending key order.
    pub closed spec fn slots(&self) -> Seq<Slot<CachedImage<T>>> {
        self.entries@
    }

    pub closed spec fn spec_max_size(&self) -> nat {
        self.max_size as nat
    }

    pub open spec fn wf(&self) -> bool {
        &&& sorted_keys(self.slots())
        &&& self.slots().len() <= self.spec_max_size()
    }

    pub fn new(max_size: usize) -> (r: MainCache<T>)
        ensures
            r.wf(),
            r.slots().len() == 0,
            r.spec_max_size() == max_size,
    {
        MainCache { entries: Vec::new(), max_size }
    }

    pub fn len(&self) -> (r: usize)
        ensures
            r == self.slots().len(),
    {
        self.entries.len()
    }

    pub fn max_size(&self) -> (r: usize)
        ensures
            r == self.spec_max_size(),
    {
        self.max_size
    }

    /// The entry for `key`, provided the file's current byte length
    /// (`None` when it could not be read) equals the recorded one.
    pub fn get_cached_image(&self, key: &str, current_size: Option<u64>) -> (r: Option<
        &CachedImage<T>,
    >)
        requires
            self.wf(),
        ensures
            match r {
                Some(e) => valid_entry(self.slots(), key@, current_size) == Some(*e),
                None => valid_entry(self.slots(), key@, current_size) is None,
            },
    {
        proof {
            lemma_sorted_distinct(self.entries@);
        }
        match find_slot(&self.entries, key) {
            Some(i) => {
                proof {
                    lemma_lookup_at(self.entries@, i as int);
                }
                let e = &self.entries[i].value;
                match current_size {
                    Some(n) => if n == e.file_size {
                        Some(e)
                    } else {
                        None
                    },
                    None => None,
                }
            },
            None => None,
        }
    }

    /// Stores a full-size preview under `key` at its sorted place, then trims
    /// the lexicographically first entries if the cache overflowed.
    pub fn cache_image(&mut self, key: String, image: CachedImage<T>)
        requires
            old(self).wf(),
        ensures
            final(self).wf(),
            final(self).spec_max_size() == old(self).spec_max_size(),
            final(self).slots() == trimmed(
                sorted_upsert(old(self).slots(), key, image),
                old(self).spec_max_size() as int,
            ),
    {
        let mut p: usize = 0;
        let mut c: i8 = 1;
        let mut found = false;
        while p < self.entries.len() && !found
            invariant
                self.entries@ == old(self).slots(),
                sorted_keys(self.entries@),
                p <= self.entries@.len(),
                forall|i: int| 0 <= i < p ==> seq_lt(self.entries@[i].key@, key@),
                found ==> c >= 0 && p < self.entries@.len() && !seq_lt(self.entries@[p as int].key@, key@)
                    && (c == 0 <==> self.entries@[p as int].key@ == key@) && (c > 0 ==> seq_lt(
                    key@,
                    self.entries@[p as int].key@,
                )),
            decreases self.entries@.len() - p + (if found { 0int } else { 1int }),
        {
            c = compare_str(self.entries[p].key.as_str(), key.as_str());
            if c >= 0 {
                found = true;
            } else {
                p = p + 1;
            }
        }
        let ghost s = self.entries@;
        proof {
            assert forall|i: int| p <= i < s.len() implies !seq_lt(s[i].key@, key@) by {
                if i > p && seq_lt(s[i].key@, key@) {
                    lemma_lt_transitive(s[p as int].key@, s[i].key@, key@);
                }
            }
            assert(is_insertion_point(s, key@, p as int));
            lemma_sorted_upsert(s, key, image, p as int);
            lemma_insertion_point_unique(s, key@, p as int);
        }
        if p < self.entries.len() && c == 0 {
            self.entries.set(p, Slot { key, value: image });
        } else {
            self.entries.insert(p, Slot { key, value: image });
        }
        assert(self.entries@ == sorted_upsert(s, key, image));
        self.cleanup_cache();
    }

    /// Drops the lexicographically first `cleanup_count` entries when the
    /// cache holds more than its maximum.
    pub fn cleanup_cache(&mut self)
        requires
            sorted_keys(old(self).slots()),
            old(self).slots().len() <= old(self).spec_max_size() + 1,
        ensures
            final(self).wf(),
            final(self).spec_max_size() == old(self).spec_max_size(),
            final(self).slots() == trimmed(old(self).slots(), old(self).spec_max_size() as int),
    {
        if self.entries.len() > self.max_size {
            let fifth = self.max_size / 5;
            let count: usize = if fifth > 10 { fifth } else { 10 };
            let n: usize = if count < self.entries.len() { count } else { self.entries.len() };
            proof {
                lemma_skip_sorted(self.entries@, n as int);
            }
            let rest = self.entries.split_off(n);
            self.entries = rest;
        }
    }
}

/// Whether a cached preview is still current for a file whose byte length
/// and modification time are now `current_size` and `modified` (`None` where
/// they could not be read).
pub fn is_cache_valid<T>(cached: &CachedImage<T>, current_size: Option<u64>, modified: Option<u64>) -> (r:
    bool)
    ensures
        r == (current_size == Some(cached.file_size) && modified == Some(cached.last_modified)),
{
    match (current_size, modified) {
        (Some(n), Some(m)) => n == cached.file_size && m == cached.last_modified,
        _ => false,
    }
}

proof fn lemma_insertion_from<V>(s: Seq<Slot<V>>, k: Seq<char>, i: int)
    requires
        sorted_keys(s),
        0 <= i <= s.len(),
        forall|j: int| 0 <= j < i ==> seq_lt(s[j].key@, k),
    ensures
        exists|p: int| is_insertion_point(s, k, p),
    decreases s.len() - i,
{
    if i == s.len() {
        assert(is_insertion_point(s, k, i));
    } else if seq_lt(s[i].key@, k) {
        lemma_insertion_from(s, k, i + 1);
    } else {
        assert forall|j: int| i <= j < s.len() implies !seq_lt(s[j].key@, k) by {
            if j > i && seq_lt(s[j].key@, k) {
                lemma_lt_transitive(s[i].key@, s[j].key@, k);
            }
        }
        assert(is_insertion_point(s, k, i));
    }
}

/// A preview cached while the cache has room for it is found again as long
/// as the file keeps the byte length it was cached with.
pub proof fn lemma_cached_image_found<T>(cache: MainCache<T>, key: String, image: CachedImage<T>)
    requires
        cache.wf(),
        cache.slots().len() < cache.spec_max_size() || has_key(cache.slots(), key@),
    ensures
        valid_entry(
            trimmed(sorted_upsert(cache.slots(), key, image), cache.spec_max_size() as int),
            key@,
            Some(image.file_size),
        ) == Some(image),
{
    let s = cache.slots();
    let p = insertion_point(s, key@);
    lemma_sorted_distinct(s);
    lemma_insertion_from(s, key@, 0);
    let q = choose|q: int| is_insertion_point(s, key@, q);
    lemma_insertion_point_unique(s, key@, q);
    if q < s.len() && s[q].key@ != key@ {
        lemma_lt_total(s[q].key@, key@);
    }
    lemma_sorted_upsert(s, key, image, q);
    if has_key(s, key@) {
        let j = choose|j: int| 0 <= j < s.len() && s[j].key@ == key@;
        if q < s.len() && s[q].key@ != key@ {
            if j < q {
                lemma_lt_irreflexive(s[j].key@, key@);
            } else if j > q {
                lemma_lt_transitive(key@, s[q].key@, s[j].key@);
                lemma_lt_irreflexive(key@, s[j].key@);
            }
        }
        if q == s.len() {
            lemma_lt_irreflexive(s[j].key@, key@);
        }
    }
}

/// A stale entry is a miss: once the file's byte length differs from the one
/// recorded, the cache no longer serves it.
pub proof fn lemma_stale_entry_misses<T>(cache: MainCache<T>, key: Seq<char>, current_size: u64)
    requires
        cache.wf(),
        lookup(cache.slots(), key) matches Some(e) && e.file_size != current_size,
    ensures
        valid_entry(cache.slots(), key, Some(current_size)) is None,
{
}

} // verus!
