//! Association lists: a sequence of distinct keys beside a sequence of
//! values, read as a finite map.

use vstd::prelude::*;

verus! {

/// The map that sends each key to the value at the key's position.
pub open spec fn assoc<K, V>(keys: Seq<K>, vals: Seq<V>) -> Map<K, V> {
    Map::new(|k: K| keys.contains(k), |k: K| vals[keys.index_of(k)])
}

/// With distinct keys, the entry at position `i` is what the map holds for
/// the key at `i`.
pub proof fn lemma_assoc_at<K, V>(keys: Seq<K>, vals: Seq<V>, i: int)
    requires
        keys.no_duplicates(),
        0 <= i < keys.len(),
    ensures
        keys.contains(keys[i]),
        keys.index_of(keys[i]) == i,
        assoc(keys, vals).contains_key(keys[i]),
        assoc(keys, vals)[keys[i]] == vals[i],
{
    assert(keys.contains(keys[i]));
    let j = keys.index_of(keys[i]);
    assert(0 <= j < keys.len() && keys[j] == keys[i]);
}

/// The map has no entry exactly when there is no key.
pub proof fn lemma_assoc_empty<K, V>(keys: Seq<K>, vals: Seq<V>)
    ensures
        keys.len() == 0 <==> assoc(keys, vals) == Map::<K, V>::empty(),
        assoc(keys, vals).dom().finite(),
        keys.no_duplicates() ==> assoc(keys, vals).dom().len() == keys.len(),
{
    if keys.len() == 0 {
        assert(assoc(keys, vals) =~= Map::<K, V>::empty());
    } else {
        assert(keys.contains(keys[0]));
        assert(assoc(keys, vals).contains_key(keys[0]));
    }
    assert(assoc(keys, vals).dom() =~= keys.to_set());
    vstd::seq_lib::seq_to_set_is_finite(keys);
    if keys.no_duplicates() {
        keys.unique_seq_to_set();
    }
}

/// Appending a key that is not there yet inserts it into the map.
pub proof fn lemma_assoc_push<K, V>(keys: Seq<K>, vals: Seq<V>, k: K, v: V)
    requires
        keys.no_duplicates(),
        keys.len() == vals.len(),
        !keys.contains(k),
    ensures
        keys.push(k).no_duplicates(),
        assoc(keys.push(k), vals.push(v)) == assoc(keys, vals).insert(k, v),
{
    let keys2 = keys.push(k);
    let vals2 = vals.push(v);
    assert(keys2.no_duplicates()) by {
        assert forall|i: int, j: int|
            0 <= i < keys2.len() && 0 <= j < keys2.len() && i != j implies keys2[i] != keys2[j] by {
            if j == keys.len() {
                assert(keys.contains(keys[i]));
            } else if i == keys.len() {
                assert(keys.contains(keys[j]));
            }
        }
    }
    assert forall|x: K|
        assoc(keys2, vals2).contains_key(x) <==> assoc(keys, vals).insert(k, v).contains_key(x) by {
        if keys2.contains(x) {
            let i = choose|i: int| 0 <= i < keys2.len() && keys2[i] == x;
            if i < keys.len() {
                assert(keys.contains(x));
            }
        }
        if keys.contains(x) {
            let i = choose|i: int| 0 <= i < keys.len() && keys[i] == x;
            assert(keys2[i] == x);
        }
        if x == k {
            assert(keys2[keys.len() as int] == k);
        }
    }
    assert forall|x: K| assoc(keys2, vals2).contains_key(x) implies assoc(keys2, vals2)[x]
        == assoc(keys, vals).insert(k, v)[x] by {
        let i = keys2.index_of(x);
        assert(0 <= i < keys2.len() && keys2[i] == x);
        if i < keys.len() {
            lemma_assoc_at(keys, vals, i);
        }
    }
    assert(assoc(keys2, vals2) =~= assoc(keys, vals).insert(k, v));
}

/// Replacing the value at position `i` replaces the value of the key at `i`.
pub proof fn lemma_assoc_update<K, V>(keys: Seq<K>, vals: Seq<V>, i: int, v: V)
    requires
        keys.no_duplicates(),
        keys.len() == vals.len(),
        0 <= i < keys.len(),
    ensures
        assoc(keys, vals.update(i, v)) == assoc(keys, vals).insert(keys[i], v),
{
    let vals2 = vals.update(i, v);
    lemma_assoc_at(keys, vals, i);
    assert forall|x: K| assoc(keys, vals2).contains_key(x) implies assoc(keys, vals2)[x]
        == assoc(keys, vals).insert(keys[i], v)[x] by {
        let j = keys.index_of(x);
        assert(0 <= j < keys.len() && keys[j] == x);
    }
    assert(assoc(keys, vals2) =~= assoc(keys, vals).insert(keys[i], v));
}

/// Taking out position `i` takes the key at `i` out of the map.
pub proof fn lemma_assoc_remove<K, V>(keys: Seq<K>, vals: Seq<V>, i: int)
    requires
        keys.no_duplicates(),
        keys.len() == vals.len(),
        0 <= i < keys.len(),
    ensures
        keys.remove(i).no_duplicates(),
        !keys.remove(i).contains(keys[i]),
        assoc(keys.remove(i), vals.remove(i)) == assoc(keys, vals).remove(keys[i]),
{
    let keys2 = keys.remove(i);
    let vals2 = vals.remove(i);
    assert forall|a: int| 0 <= a < keys2.len() implies keys2[a] == keys[if a < i { a } else { a + 1 }]
        && vals2[a] == vals[if a < i { a } else { a + 1 }] by {}
    assert(keys2.no_duplicates());
    if keys2.contains(keys[i]) {
        let a = choose|a: int| 0 <= a < keys2.len() && keys2[a] == keys[i];
        assert(keys[if a < i { a } else { a + 1 }] == keys[i]);
    }
    assert forall|x: K|
        assoc(keys2, vals2).contains_key(x) <==> assoc(keys, vals).remove(keys[i]).contains_key(
            x,
        ) by {
        if keys2.contains(x) {
            let a = choose|a: int| 0 <= a < keys2.len() && keys2[a] == x;
            assert(keys[if a < i { a } else { a + 1 }] == x);
        }
        if keys.contains(x) && x != keys[i] {
            let b = choose|b: int| 0 <= b < keys.len() && keys[b] == x;
            assert(keys2[if b < i { b } else { b - 1 }] == x);
        }
    }
    assert forall|x: K| assoc(keys2, vals2).contains_key(x) implies assoc(keys2, vals2)[x]
        == assoc(keys, vals).remove(keys[i])[x] by {
        let a = keys2.index_of(x);
        assert(0 <= a < keys2.len() && keys2[a] == x);
        let b = if a < i { a } else { a + 1 };
        lemma_assoc_at(keys, vals, b);
    }
    assert(assoc(keys2, vals2) =~= assoc(keys, vals).remove(keys[i]));
}

} // verus!
