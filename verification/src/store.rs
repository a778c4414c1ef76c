//! A mathematical model for keyed record stores.
//!
//! The registries keep their records in plain vectors; each record carries its
//! own primary key. These definitions give such a vector a `Map` view keyed by
//! an arbitrary key function, together with the lemmas that connect vector
//! edits (push, in-place update, removal) to map operations.

use vstd::prelude::*;

verus! {

/// Every pair of records in `s` has distinct keys.
pub open spec fn keys_unique<K, V>(s: Seq<V>, key: spec_fn(V) -> K) -> bool {
    forall|i: int, j: int| 0 <= i < j < s.len() ==> key(s[i]) != key(s[j])
}

/// The map from key to record described by the sequence `s`.
/// Later records shadow earlier ones; under `keys_unique` no shadowing occurs.
pub open spec fn keyed_map<K, V>(s: Seq<V>, key: spec_fn(V) -> K) -> Map<K, V>
    decreases s.len(),
{
    if s.len() == 0 {
        Map::empty()
    } else {
        keyed_map(s.drop_last(), key).insert(key(s.last()), s.last())
    }
}

/// A key is in the map exactly when some record carries it.
pub proof fn lemma_keyed_map_contains<K, V>(s: Seq<V>, key: spec_fn(V) -> K, k: K)
    ensures
        keyed_map(s, key).contains_key(k) <==> exists|i: int| 0 <= i < s.len() && key(s[i]) == k,
    decreases s.len(),
{
    if s.len() > 0 {
        lemma_keyed_map_contains(s.drop_last(), key, k);
        if key(s.last()) == k {
            assert(key(s[s.len() - 1]) == k);
        } else if keyed_map(s.drop_last(), key).contains_key(k) {
            let i = choose|i: int| 0 <= i < s.drop_last().len() && key(s.drop_last()[i]) == k;
            assert(key(s[i]) == k);
        } else if exists|i: int| 0 <= i < s.len() && key(s[i]) == k {
            let i = choose|i: int| 0 <= i < s.len() && key(s[i]) == k;
            assert(0 <= i < s.len() - 1);
            assert(key(s.drop_last()[i]) == k);
        }
    }
}

/// Under unique keys, the record stored at the key of `s[i]` is `s[i]` itself.
pub proof fn lemma_keyed_map_index<K, V>(s: Seq<V>, key: spec_fn(V) -> K, i: int)
    requires
        keys_unique(s, key),
        0 <= i < s.len(),
    ensures
        keyed_map(s, key).contains_key(key(s[i])),
        keyed_map(s, key)[key(s[i])] == s[i],
    decreases s.len(),
{
    if i == s.len() - 1 {
        assert(keyed_map(s, key) == keyed_map(s.drop_last(), key).insert(key(s.last()), s.last()));
    } else {
        lemma_keyed_map_index(s.drop_last(), key, i);
        assert(s.drop_last()[i] == s[i]);
        assert(key(s[s.len() - 1]) != key(s[i]));
    }
}

/// Appending a record with a fresh key inserts it into the map.
pub proof fn lemma_keyed_map_push<K, V>(s: Seq<V>, key: spec_fn(V) -> K, v: V)
    ensures
        keyed_map(s.push(v), key) == keyed_map(s, key).insert(key(v), v),
{
    assert(s.push(v).drop_last() == s);
    assert(s.push(v).last() == v);
}

/// Replacing `s[i]` by a record with the same key updates the map at that key.
pub proof fn lemma_keyed_map_update<K, V>(s: Seq<V>, key: spec_fn(V) -> K, i: int, v: V)
    requires
        keys_unique(s, key),
        0 <= i < s.len(),
        key(v) == key(s[i]),
    ensures
        keyed_map(s.update(i, v), key) =~= keyed_map(s, key).insert(key(v), v),
    decreases s.len(),
{
    let t = s.update(i, v);
    if i == s.len() - 1 {
        assert(t.drop_last() =~= s.drop_last());
        assert(t.last() == v);
    } else {
        lemma_keyed_map_update(s.drop_last(), key, i, v);
        assert(t.drop_last() =~= s.drop_last().update(i, v));
        assert(t.last() == s.last());
        assert(key(s[s.len() - 1]) != key(s[i]));
    }
}

/// Removing `s[i]` removes its key from the map.
pub proof fn lemma_keyed_map_remove<K, V>(s: Seq<V>, key: spec_fn(V) -> K, i: int)
    requires
        keys_unique(s, key),
        0 <= i < s.len(),
    ensures
        keyed_map(s.remove(i), key) =~= keyed_map(s, key).remove(key(s[i])),
    decreases s.len(),
{
    let t = s.remove(i);
    if i == s.len() - 1 {
        assert(t =~= s.drop_last());
        lemma_keyed_map_not_contains_absent_key(s.drop_last(), key, key(s[i]));
    } else {
        lemma_keyed_map_remove(s.drop_last(), key, i);
        assert(t.drop_last() =~= s.drop_last().remove(i));
        assert(t.last() == s.last());
        assert(key(s[s.len() - 1]) != key(s[i]));
    }
}

/// A key carried by no record is absent from the map.
proof fn lemma_keyed_map_not_contains_absent_key<K, V>(s: Seq<V>, key: spec_fn(V) -> K, k: K)
    requires
        forall|i: int| 0 <= i < s.len() ==> key(s[i]) != k,
    ensures
        !keyed_map(s, key).contains_key(k),
        keyed_map(s, key).remove(k) == keyed_map(s, key),
{
    lemma_keyed_map_contains(s, key, k);
    assert(keyed_map(s, key).remove(k) =~= keyed_map(s, key));
}

/// Mapping a function over a sequence commutes with appending.
pub proof fn lemma_map_values_push<A, B>(s: Seq<A>, f: spec_fn(A) -> B, v: A)
    ensures
        s.push(v).map_values(f) =~= s.map_values(f).push(f(v)),
{
}

/// Mapping a function over a sequence commutes with in-place update.
pub proof fn lemma_map_values_update<A, B>(s: Seq<A>, f: spec_fn(A) -> B, i: int, v: A)
    requires
        0 <= i < s.len(),
    ensures
        s.update(i, v).map_values(f) =~= s.map_values(f).update(i, f(v)),
{
}

/// Mapping a function over a sequence commutes with insertion.
pub proof fn lemma_map_values_insert<A, B>(s: Seq<A>, f: spec_fn(A) -> B, i: int, v: A)
    requires
        0 <= i <= s.len(),
    ensures
        s.insert(i, v).map_values(f) =~= s.map_values(f).insert(i, f(v)),
{
}

/// Mapping a function over a sequence commutes with removal.
pub proof fn lemma_map_values_remove<A, B>(s: Seq<A>, f: spec_fn(A) -> B, i: int)
    requires
        0 <= i < s.len(),
    ensures
        s.remove(i).map_values(f) =~= s.map_values(f).remove(i),
{
}

/// Mapping a function over a sequence commutes with concatenation.
pub proof fn lemma_map_values_concat<A, B>(s: Seq<A>, t: Seq<A>, f: spec_fn(A) -> B)
    ensures
        (s + t).map_values(f) =~= s.map_values(f) + t.map_values(f),
{
}

/// Under unique keys the map has exactly one entry per record.
pub proof fn lemma_keyed_map_len<K, V>(s: Seq<V>, key: spec_fn(V) -> K)
    requires
        keys_unique(s, key),
    ensures
        keyed_map(s, key).dom().finite(),
        keyed_map(s, key).dom().len() == s.len(),
    decreases s.len(),
{
    if s.len() > 0 {
        lemma_keyed_map_len(s.drop_last(), key);
        lemma_keyed_map_contains(s.drop_last(), key, key(s.last()));
        assert(forall|i: int| 0 <= i < s.drop_last().len() ==> key(s.drop_last()[i]) != key(
            s.last(),
        )) by {
            assert(forall|i: int| 0 <= i < s.len() - 1 ==> s.drop_last()[i] == s[i]);
        }
        assert(!keyed_map(s.drop_last(), key).contains_key(key(s.last())));
    }
}

} // verus!
