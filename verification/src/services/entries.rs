//! Lists of keyed entries read as maps: the model behind the in-memory
//! stores, which keep their entries in a vector and never two under one key.

use vstd::prelude::*;

verus! {

/// No two entries share a key.
pub open spec fn distinct_keys<K, V>(entries: Seq<(K, V)>) -> bool {
    forall|i: int, j: int|
        0 <= i < j < entries.len() ==> (#[trigger] entries[i]).0 != (#[trigger] entries[j]).0
}

/// Whether some entry has the key `key`.
pub open spec fn has_key<K, V>(entries: Seq<(K, V)>, key: K) -> bool {
    exists|i: int| 0 <= i < entries.len() && (#[trigger] entries[i]).0 == key
}

/// The place of an entry with the key `key`.
pub open spec fn index_of<K, V>(entries: Seq<(K, V)>, key: K) -> int {
    choose|i: int| 0 <= i < entries.len() && (#[trigger] entries[i]).0 == key
}

/// The map from each key in the list to the value listed with it.
pub open spec fn as_map<K, V>(entries: Seq<(K, V)>) -> Map<K, V> {
    Map::new(|key: K| has_key(entries, key), |key: K| entries[index_of(entries, key)].1)
}

/// An entry of a list without repeated keys is what the map holds for its
/// key.
pub proof fn lemma_entry_in_map<K, V>(entries: Seq<(K, V)>, i: int)
    requires
        distinct_keys(entries),
        0 <= i < entries.len(),
    ensures
        as_map(entries).contains_key(entries[i].0),
        as_map(entries)[entries[i].0] == entries[i].1,
{
}

/// Appending an entry under a new key inserts it into the map.
pub proof fn lemma_push<K, V>(entries: Seq<(K, V)>, key: K, value: V)
    requires
        distinct_keys(entries),
        !as_map(entries).contains_key(key),
    ensures
        distinct_keys(entries.push((key, value))),
        as_map(entries.push((key, value))) == as_map(entries).insert(key, value),
{
    let longer = entries.push((key, value));
    assert forall|k: K| #[trigger] as_map(longer).contains_key(k) <==> as_map(entries).insert(
        key,
        value,
    ).contains_key(k) by {
        if has_key(entries, k) {
            let i = index_of(entries, k);
            assert(longer[i] == entries[i]);
        }
        if k == key {
            assert(longer[entries.len() as int].0 == key);
        }
    }
}

/// Replacing the value of an entry replaces it in the map.
pub proof fn lemma_update<K, V>(entries: Seq<(K, V)>, i: int, value: V)
    requires
        distinct_keys(entries),
        0 <= i < entries.len(),
    ensures
        distinct_keys(entries.update(i, (entries[i].0, value))),
        as_map(entries.update(i, (entries[i].0, value))) == as_map(entries).insert(
            entries[i].0,
            value,
        ),
{
    let key = entries[i].0;
    let changed = entries.update(i, (key, value));
    assert forall|k: K| #[trigger] as_map(changed).contains_key(k) <==> as_map(entries).insert(
        key,
        value,
    ).contains_key(k) by {
        if has_key(entries, k) {
            let a = index_of(entries, k);
            assert(changed[a].0 == entries[a].0);
        }
    }
}

/// Taking an entry out of the list removes its key from the map.
pub proof fn lemma_remove<K, V>(entries: Seq<(K, V)>, i: int)
    requires
        distinct_keys(entries),
        0 <= i < entries.len(),
    ensures
        distinct_keys(entries.remove(i)),
        as_map(entries.remove(i)) == as_map(entries).remove(entries[i].0),
{
    let key = entries[i].0;
    let shorter = entries.remove(i);
    assert forall|k: K| #[trigger] as_map(shorter).contains_key(k) <==> as_map(entries).remove(
        key,
    ).contains_key(k) by {
        if has_key(entries, k) && k != key {
            let a0 = index_of(entries, k);
            let a = if a0 < i { a0 } else { a0 - 1 };
            assert(shorter[a] == entries[a0]);
        }
    }
}

} // verus!
