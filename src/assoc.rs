//! Association lists: the model shared by the option set and the callback
//! registry. A later entry wins over an earlier one with the same key.
use vstd::prelude::*;

verus! {

/// The entries of `s` whose key is not `k`, in their order.
pub open spec fn without<K, V>(s: Seq<(K, V)>, k: K) -> Seq<(K, V)>
    decreases s.len(),
{
    if s.len() == 0 {
        s
    } else if s.last().0 == k {
        without(s.drop_last(), k)
    } else {
        without(s.drop_last(), k).push(s.last())
    }
}

/// The value of the last entry with key `k`.
pub open spec fn lookup<K, V>(s: Seq<(K, V)>, k: K) -> Option<V>
    decreases s.len(),
{
    if s.len() == 0 {
        None
    } else if s.last().0 == k {
        Some(s.last().1)
    } else {
        lookup(s.drop_last(), k)
    }
}

/// Sets key `k` to `v`: every earlier entry for `k` goes, the new one is last.
pub open spec fn put<K, V>(s: Seq<(K, V)>, k: K, v: V) -> Seq<(K, V)> {
    without(s, k).push((k, v))
}

/// Removing a key leaves no value for it and every other key's value as it was.
pub proof fn lemma_lookup_without<K, V>(s: Seq<(K, V)>, k: K, k2: K)
    ensures
        lookup(without(s, k), k2) == if k2 == k {
            None
        } else {
            lookup(s, k2)
        },
    decreases s.len(),
{
    if s.len() > 0 {
        lemma_lookup_without(s.drop_last(), k, k2);
        if s.last().0 != k {
            assert(without(s, k).drop_last() =~= without(s.drop_last(), k));
        }
    }
}

/// After `put`, the key holds the new value and every other key is unchanged.
pub proof fn lemma_lookup_put<K, V>(s: Seq<(K, V)>, k: K, v: V, k2: K)
    ensures
        lookup(put(s, k, v), k2) == if k2 == k {
            Some(v)
        } else {
            lookup(s, k2)
        },
{
    assert(put(s, k, v).drop_last() =~= without(s, k));
    lemma_lookup_without(s, k, k2);
}

/// Setting a key twice keeps only the second value.
pub proof fn lemma_put_put<K, V>(s: Seq<(K, V)>, k: K, a: V, b: V)
    ensures
        lookup(put(put(s, k, a), k, b), k) == Some(b),
{
    lemma_lookup_put(put(s, k, a), k, b, k);
}


/// Whether some entry of `s` has key `k`.
pub open spec fn has_key<K, V>(s: Seq<(K, V)>, k: K) -> bool {
    exists|i: int| 0 <= i < s.len() && #[trigger] s[i].0 == k
}

/// No two entries of `s` share a key.
pub open spec fn keys_distinct<K, V>(s: Seq<(K, V)>) -> bool {
    forall|i: int, j: int| 0 <= i < j < s.len() ==> #[trigger] s[i].0 != #[trigger] s[j].0
}

/// Appending an entry with a new key keeps the keys distinct.
pub proof fn lemma_distinct_push<K, V>(s: Seq<(K, V)>, e: (K, V))
    requires
        keys_distinct(s),
        !has_key(s, e.0),
    ensures
        keys_distinct(s.push(e)),
{
    assert forall|i: int, j: int| 0 <= i < j < s.push(e).len() implies s.push(e)[i].0 != s.push(
        e,
    )[j].0 by {
        if j == s.len() {
            assert(s[i].0 == s.push(e)[i].0);
        }
    }
}

/// Removing a key leaves no entry for it, keeps only keys that were there,
/// and keeps the keys distinct.
pub proof fn lemma_without_keys<K, V>(s: Seq<(K, V)>, k: K)
    ensures
        !has_key(without(s, k), k),
        forall|k2: K| has_key(without(s, k), k2) ==> has_key(s, k2),
        keys_distinct(s) ==> keys_distinct(without(s, k)),
    decreases s.len(),
{
    if s.len() > 0 {
        let d = s.drop_last();
        lemma_without_keys(d, k);
        assert forall|k2: K| has_key(d, k2) implies has_key(s, k2) by {
            let i = choose|i: int| 0 <= i < d.len() && #[trigger] d[i].0 == k2;
            assert(s[i].0 == k2);
        }
        if s.last().0 != k {
            let w = without(d, k);
            assert forall|k2: K| has_key(w.push(s.last()), k2) implies has_key(s, k2) by {
                let i = choose|i: int| 0 <= i < w.push(s.last()).len() && #[trigger] w.push(
                    s.last(),
                )[i].0 == k2;
                if i == w.len() {
                    assert(s[s.len() - 1].0 == k2);
                } else {
                    assert(w[i].0 == k2);
                }
            }
            assert(!has_key(w.push(s.last()), k)) by {
                if has_key(w.push(s.last()), k) {
                    let i = choose|i: int| 0 <= i < w.push(s.last()).len() && #[trigger] w.push(
                        s.last(),
                    )[i].0 == k;
                    assert(w[i].0 == k);
                }
            }
            if keys_distinct(s) {
                assert(keys_distinct(d)) by {
                    assert forall|i: int, j: int| 0 <= i < j < d.len() implies d[i].0 != d[j].0 by {
                        assert(s[i].0 != s[j].0);
                    }
                }
                assert(!has_key(d, s.last().0)) by {
                    if has_key(d, s.last().0) {
                        let i = choose|i: int| 0 <= i < d.len() && #[trigger] d[i].0 == s.last().0;
                        assert(s[i].0 != s[s.len() - 1].0);
                    }
                }
                lemma_distinct_push(w, s.last());
            }
        } else if keys_distinct(s) {
            assert forall|i: int, j: int| 0 <= i < j < d.len() implies d[i].0 != d[j].0 by {
                assert(s[i].0 != s[j].0);
            }
        }
    }
}

/// Setting a key keeps the keys distinct.
pub proof fn lemma_put_distinct<K, V>(s: Seq<(K, V)>, k: K, v: V)
    requires
        keys_distinct(s),
    ensures
        keys_distinct(put(s, k, v)),
{
    lemma_without_keys(s, k);
    lemma_distinct_push(without(s, k), (k, v));
}

/// With distinct keys, the value for a key is that of its one entry.
pub proof fn lemma_lookup_entry<K, V>(s: Seq<(K, V)>, i: int)
    requires
        keys_distinct(s),
        0 <= i < s.len(),
    ensures
        lookup(s, s[i].0) == Some(s[i].1),
    decreases s.len(),
{
    if i < s.len() - 1 {
        let d = s.drop_last();
        assert(s[i].0 != s[s.len() - 1].0);
        assert forall|a: int, b: int| 0 <= a < b < d.len() implies d[a].0 != d[b].0 by {
            assert(s[a].0 != s[b].0);
        }
        assert(d[i] == s[i]);
        lemma_lookup_entry(d, i);
    }
}

/// With distinct keys, removing a key that is present drops exactly one entry.
pub proof fn lemma_without_len<K, V>(s: Seq<(K, V)>, k: K)
    requires
        keys_distinct(s),
        has_key(s, k),
    ensures
        without(s, k).len() == s.len() - 1,
    decreases s.len(),
{
    let d = s.drop_last();
    assert forall|i: int, j: int| 0 <= i < j < d.len() implies d[i].0 != d[j].0 by {
        assert(s[i].0 != s[j].0);
    }
    if s.last().0 == k {
        lemma_without_absent(d, k);
        assert(!has_key(d, k)) by {
            if has_key(d, k) {
                let i = choose|i: int| 0 <= i < d.len() && #[trigger] d[i].0 == k;
                assert(s[i].0 != s[s.len() - 1].0);
            }
        }
    } else {
        let i = choose|i: int| 0 <= i < s.len() && #[trigger] s[i].0 == k;
        assert(d[i].0 == k);
        lemma_without_len(d, k);
    }
}

/// Removing a key that is absent changes nothing.
pub proof fn lemma_without_absent<K, V>(s: Seq<(K, V)>, k: K)
    ensures
        !has_key(s, k) ==> without(s, k) == s,
    decreases s.len(),
{
    if s.len() > 0 && !has_key(s, k) {
        let d = s.drop_last();
        assert(s[s.len() - 1].0 != k);
        assert(!has_key(d, k)) by {
            if has_key(d, k) {
                let i = choose|i: int| 0 <= i < d.len() && #[trigger] d[i].0 == k;
                assert(s[i].0 == k);
            }
        }
        lemma_without_absent(d, k);
        assert(d.push(s.last()) =~= s);
    }
}

/// Setting a key that already has a value, in entries with distinct keys,
/// replaces that value: the number of entries stays, the old value is held by
/// no entry for the key, and every other key keeps its value.
pub proof fn lemma_put_replaces<K, V>(s: Seq<(K, V)>, k: K, v: V)
    requires
        keys_distinct(s),
        lookup(s, k) is Some,
    ensures
        put(s, k, v).len() == s.len(),
        lookup(put(s, k, v), k) == Some(v),
        forall|i: int| 0 <= i < put(s, k, v).len() && #[trigger] put(s, k, v)[i].0 == k ==> put(
            s,
            k,
            v,
        )[i].1 == v,
        forall|k2: K| k2 != k ==> lookup(#[trigger] put(s, k, v), k2) == lookup(s, k2),
{
    lemma_lookup_some(s, k);
    lemma_without_len(s, k);
    lemma_without_keys(s, k);
    lemma_lookup_put(s, k, v, k);
    assert forall|k2: K| k2 != k implies lookup(#[trigger] put(s, k, v), k2) == lookup(s, k2) by {
        lemma_lookup_put(s, k, v, k2);
    }
    assert forall|i: int| 0 <= i < put(s, k, v).len() && #[trigger] put(s, k, v)[i].0 == k implies put(
        s,
        k,
        v,
    )[i].1 == v by {
        if i < without(s, k).len() {
            assert(without(s, k)[i].0 == k);
        }
    }
}

/// A key with a value has an entry.
pub proof fn lemma_lookup_some<K, V>(s: Seq<(K, V)>, k: K)
    ensures
        lookup(s, k) is Some ==> has_key(s, k),
    decreases s.len(),
{
    if s.len() > 0 {
        let d = s.drop_last();
        lemma_lookup_some(d, k);
        if s.last().0 != k && lookup(s, k) is Some {
            let i = choose|i: int| 0 <= i < d.len() && #[trigger] d[i].0 == k;
            assert(s[i].0 == k);
        } else if s.last().0 == k {
            assert(s[s.len() - 1].0 == k);
        }
    }
}

} // verus!
