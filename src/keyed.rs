use vstd::prelude::*;
use crate::text::str_eq;

verus! {

/// One entry of a cache kept in a vector: a path key and its value.
pub struct Slot<V> {
    pub key: String,
    pub value: V,
}

/// No key occurs twice.
pub open spec fn distinct_keys<V>(s: Seq<Slot<V>>) -> bool {
    forall|i: int, j: int| 0 <= i < j < s.len() ==> s[i].key@ != s[j].key@
}

pub open spec fn has_key<V>(s: Seq<Slot<V>>, k: Seq<char>) -> bool {
    exists|i: int| 0 <= i < s.len() && s[i].key@ == k
}

/// The value stored under `k`, if any.
pub open spec fn lookup<V>(s: Seq<Slot<V>>, k: Seq<char>) -> Option<V> {
    if has_key(s, k) {
        Some(s[choose|i: int| 0 <= i < s.len() && s[i].key@ == k].value)
    } else {
        None
    }
}

/// `s` with the value under `key` replaced, or with a new last entry.
pub open spec fn upsert<V>(s: Seq<Slot<V>>, key: String, value: V) -> Seq<Slot<V>> {
    if has_key(s, key@) {
        s.update(
            choose|i: int| 0 <= i < s.len() && s[i].key@ == key@,
            Slot { key, value },
        )
    } else {
        s.push(Slot { key, value })
    }
}

pub proof fn lemma_lookup_at<V>(s: Seq<Slot<V>>, i: int)
    requires
        distinct_keys(s),
        0 <= i < s.len(),
    ensures
        lookup(s, s[i].key@) == Some(s[i].value),
{
    let k = s[i].key@;
    assert(has_key(s, k));
    let j = choose|j: int| 0 <= j < s.len() && s[j].key@ == k;
    assert(j == i);
}

/// Upserting keeps keys distinct, makes `key` map to `value`, keeps every
/// other key's value, and grows the sequence by one exactly when `key` was new.
pub proof fn lemma_upsert<V>(s: Seq<Slot<V>>, key: String, value: V)
    requires
        distinct_keys(s),
    ensures
        distinct_keys(upsert(s, key, value)),
        lookup(upsert(s, key, value), key@) == Some(value),
        forall|k: Seq<char>| k != key@ ==> lookup(upsert(s, key, value), k) == lookup(s, k),
        upsert(s, key, value).len() == if has_key(s, key@) { s.len() } else { s.len() + 1 },
{
    let t = upsert(s, key, value);
    if has_key(s, key@) {
        let i = choose|i: int| 0 <= i < s.len() && s[i].key@ == key@;
        assert(t[i].key@ == key@);
        assert forall|k: Seq<char>| k != key@ implies lookup(t, k) == lookup(s, k) by {
            if has_key(s, k) {
                let j = choose|j: int| 0 <= j < s.len() && s[j].key@ == k;
                assert(t[j] == s[j]);
                lemma_lookup_at(t, j);
                lemma_lookup_at(s, j);
            } else {
                if has_key(t, k) {
                    let j = choose|j: int| 0 <= j < t.len() && t[j].key@ == k;
                    assert(s[j].key@ == k);
                }
            }
        }
        lemma_lookup_at(t, i);
    } else {
        assert(t[s.len() as int].key@ == key@);
        assert forall|k: Seq<char>| k != key@ implies lookup(t, k) == lookup(s, k) by {
            if has_key(s, k) {
                let j = choose|j: int| 0 <= j < s.len() && s[j].key@ == k;
                assert(t[j] == s[j]);
                lemma_lookup_at(t, j);
                lemma_lookup_at(s, j);
            } else {
                if has_key(t, k) {
                    let j = choose|j: int| 0 <= j < t.len() && t[j].key@ == k;
                    assert(j < s.len());
                    assert(s[j].key@ == k);
                }
            }
        }
        lemma_lookup_at(t, s.len() as int);
    }
}

/// Dropping a prefix keeps keys distinct.
pub proof fn lemma_skip_distinct<V>(s: Seq<Slot<V>>, n: int)
    requires
        distinct_keys(s),
        0 <= n <= s.len(),
    ensures
        distinct_keys(s.skip(n)),
{
    assert forall|i: int, j: int| 0 <= i < j < s.skip(n).len() implies s.skip(n)[i].key@ != s.skip(
        n,
    )[j].key@ by {
        assert(s.skip(n)[i] == s[i + n]);
        assert(s.skip(n)[j] == s[j + n]);
    }
}

/// Position of `key` in `v`.
pub fn find_slot<V>(v: &Vec<Slot<V>>, key: &str) -> (r: Option<usize>)
    ensures
        match r {
            Some(i) => i < v@.len() && v@[i as int].key@ == key@,
            None => !has_key(v@, key@),
        },
{
    let mut i: usize = 0;
    while i < v.len()
        invariant
            i <= v@.len(),
            forall|j: int| 0 <= j < i ==> v@[j].key@ != key@,
        decreases v@.len() - i,
    {
        if str_eq(v[i].key.as_str(), key) {
            return Some(i);
        }
        i = i + 1;
    }
    None
}

/// Stores `value` under `key`, in place of an earlier value or as the newest
/// entry.
pub fn upsert_slot<V>(v: &mut Vec<Slot<V>>, key: String, value: V)
    requires
        distinct_keys(old(v)@),
    ensures
        final(v)@ == upsert(old(v)@, key, value),
{
    match find_slot(v, key.as_str()) {
        Some(i) => {
            proof {
                let j = choose|j: int| 0 <= j < v@.len() && v@[j].key@ == key@;
                if j < i {
                    assert(v@[j].key@ != v@[i as int].key@);
                } else if j > i {
                    assert(v@[i as int].key@ != v@[j].key@);
                }
            }
            v.set(i, Slot { key, value });
        },
        None => {
            v.push(Slot { key, value });
        },
    }
}

} // verus!
