//! Spec-level view of parallel key/value vectors as a `Map`, with the lemmas
//! that lookup, in-place update and append need.

use vstd::prelude::*;

verus! {

/// The map described by parallel key and value sequences; on duplicate keys
/// the later entry wins.
pub open spec fn entries_map<K, V>(keys: Seq<K>, vals: Seq<V>) -> Map<K, V>
    decreases keys.len(),
{
    if keys.len() == 0 || vals.len() == 0 {
        Map::empty()
    } else {
        entries_map(keys.drop_last(), vals.drop_last()).insert(keys.last(), vals.last())
    }
}

/// Whether the keys are pairwise distinct.
pub open spec fn distinct_keys<K>(keys: Seq<K>) -> bool {
    forall|i: int, j: int| 0 <= i < j < keys.len() ==> keys[i] != keys[j]
}

/// The map holds a key exactly when some index holds it.
pub proof fn lemma_entries_map_contains<K, V>(keys: Seq<K>, vals: Seq<V>, k: K)
    requires
        keys.len() == vals.len(),
    ensures
        entries_map(keys, vals).contains_key(k) <==> exists|i: int|
            0 <= i < keys.len() && keys[i] == k,
    decreases keys.len(),
{
    if keys.len() > 0 {
        lemma_entries_map_contains(keys.drop_last(), vals.drop_last(), k);
        if entries_map(keys, vals).contains_key(k) {
            if k == keys.last() {
                assert(keys[keys.len() - 1] == k);
            } else {
                let i = choose|i: int| 0 <= i < keys.len() - 1 && keys.drop_last()[i] == k;
                assert(keys[i] == k);
            }
        }
        if exists|i: int| 0 <= i < keys.len() && keys[i] == k {
            let i = choose|i: int| 0 <= i < keys.len() && keys[i] == k;
            if i < keys.len() - 1 {
                assert(keys.drop_last()[i] == k);
            }
        }
    }
}

/// With distinct keys, the entry at index `i` is what the map holds at its key.
pub proof fn lemma_entries_map_index<K, V>(keys: Seq<K>, vals: Seq<V>, i: int)
    requires
        keys.len() == vals.len(),
        distinct_keys(keys),
        0 <= i < keys.len(),
    ensures
        entries_map(keys, vals).contains_key(keys[i]),
        entries_map(keys, vals)[keys[i]] == vals[i],
    decreases keys.len(),
{
    if i == keys.len() - 1 {
    } else {
        assert(distinct_keys(keys.drop_last())) by {
            assert forall|a: int, b: int|
                0 <= a < b < keys.len() - 1 implies keys.drop_last()[a] != keys.drop_last()[b] by {
                assert(keys[a] != keys[b]);
            }
        }
        lemma_entries_map_index(keys.drop_last(), vals.drop_last(), i);
        assert(keys[i] != keys.last());
    }
}

/// Updating the value at index `i` updates the map at that index's key.
pub proof fn lemma_entries_map_update<K, V>(keys: Seq<K>, vals: Seq<V>, i: int, v: V)
    requires
        keys.len() == vals.len(),
        distinct_keys(keys),
        0 <= i < keys.len(),
    ensures
        entries_map(keys, vals.update(i, v)) == entries_map(keys, vals).insert(keys[i], v),
    decreases keys.len(),
{
    let lhs = entries_map(keys, vals.update(i, v));
    let rhs = entries_map(keys, vals).insert(keys[i], v);
    if i == keys.len() - 1 {
        assert(vals.update(i, v).drop_last() =~= vals.drop_last());
        assert(vals.update(i, v).last() == v);
        assert(lhs =~= rhs);
    } else {
        assert(distinct_keys(keys.drop_last())) by {
            assert forall|a: int, b: int|
                0 <= a < b < keys.len() - 1 implies keys.drop_last()[a] != keys.drop_last()[b] by {
                assert(keys[a] != keys[b]);
            }
        }
        assert(vals.update(i, v).drop_last() =~= vals.drop_last().update(i, v));
        lemma_entries_map_update(keys.drop_last(), vals.drop_last(), i, v);
        assert(keys.drop_last()[i] == keys[i]);
        assert(keys[i] != keys.last());
        assert(lhs =~= rhs);
    }
}

/// Inserting a fresh key/value pair at any position inserts it into the map.
pub proof fn lemma_entries_map_insert_at<K, V>(keys: Seq<K>, vals: Seq<V>, pos: int, k: K, v: V)
    requires
        keys.len() == vals.len(),
        distinct_keys(keys),
        0 <= pos <= keys.len(),
        forall|i: int| 0 <= i < keys.len() ==> keys[i] != k,
    ensures
        entries_map(keys.insert(pos, k), vals.insert(pos, v)) == entries_map(keys, vals).insert(
            k,
            v,
        ),
    decreases keys.len(),
{
    if pos == keys.len() {
        assert(keys.insert(pos, k) =~= keys.push(k));
        assert(vals.insert(pos, v) =~= vals.push(v));
        lemma_entries_map_push(keys, vals, k, v);
    } else {
        assert(distinct_keys(keys.drop_last())) by {
            assert forall|a: int, b: int|
                0 <= a < b < keys.len() - 1 implies keys.drop_last()[a] != keys.drop_last()[b] by {
                assert(keys[a] != keys[b]);
            }
        }
        assert(keys.insert(pos, k).drop_last() =~= keys.drop_last().insert(pos, k));
        assert(vals.insert(pos, v).drop_last() =~= vals.drop_last().insert(pos, v));
        assert(keys.insert(pos, k).last() == keys.last());
        assert(vals.insert(pos, v).last() == vals.last());
        assert forall|i: int| 0 <= i < keys.len() - 1 implies keys.drop_last()[i] != k by {
            assert(keys[i] != k);
        }
        lemma_entries_map_insert_at(keys.drop_last(), vals.drop_last(), pos, k, v);
        assert(keys[keys.len() - 1] != k);
        assert(entries_map(keys.insert(pos, k), vals.insert(pos, v)) =~= entries_map(
            keys,
            vals,
        ).insert(k, v));
    }
}

/// Removing the entry at a position removes its key from the map.
pub proof fn lemma_entries_map_remove_at<K, V>(keys: Seq<K>, vals: Seq<V>, pos: int)
    requires
        keys.len() == vals.len(),
        distinct_keys(keys),
        0 <= pos < keys.len(),
    ensures
        entries_map(keys.remove(pos), vals.remove(pos)) == entries_map(keys, vals).remove(
            keys[pos],
        ),
    decreases keys.len(),
{
    assert(distinct_keys(keys.drop_last())) by {
        assert forall|a: int, b: int|
            0 <= a < b < keys.len() - 1 implies keys.drop_last()[a] != keys.drop_last()[b] by {
            assert(keys[a] != keys[b]);
        }
    }
    if pos == keys.len() - 1 {
        assert(keys.remove(pos) =~= keys.drop_last());
        assert(vals.remove(pos) =~= vals.drop_last());
        lemma_entries_map_contains(keys.drop_last(), vals.drop_last(), keys[pos]);
        assert(forall|i: int| 0 <= i < keys.len() - 1 ==> keys.drop_last()[i] != keys[pos]);
        assert(entries_map(keys.remove(pos), vals.remove(pos)) =~= entries_map(keys, vals).remove(
            keys[pos],
        ));
    } else {
        assert(keys.remove(pos).drop_last() =~= keys.drop_last().remove(pos));
        assert(vals.remove(pos).drop_last() =~= vals.drop_last().remove(pos));
        assert(keys.remove(pos).last() == keys.last());
        assert(vals.remove(pos).last() == vals.last());
        lemma_entries_map_remove_at(keys.drop_last(), vals.drop_last(), pos);
        assert(keys.drop_last()[pos] == keys[pos]);
        assert(keys[keys.len() - 1] != keys[pos]);
        assert(entries_map(keys.remove(pos), vals.remove(pos)) =~= entries_map(keys, vals).remove(
            keys[pos],
        ));
    }
}

/// Removing an absent key changes nothing.
pub proof fn lemma_entries_map_remove_absent<K, V>(keys: Seq<K>, vals: Seq<V>, k: K)
    requires
        keys.len() == vals.len(),
        forall|i: int| 0 <= i < keys.len() ==> keys[i] != k,
    ensures
        entries_map(keys, vals).remove(k) == entries_map(keys, vals),
{
    lemma_entries_map_contains(keys, vals, k);
    assert(entries_map(keys, vals).remove(k) =~= entries_map(keys, vals));
}

/// Appending a fresh key/value pair inserts it into the map.
pub proof fn lemma_entries_map_push<K, V>(keys: Seq<K>, vals: Seq<V>, k: K, v: V)
    requires
        keys.len() == vals.len(),
    ensures
        entries_map(keys.push(k), vals.push(v)) == entries_map(keys, vals).insert(k, v),
{
    assert(keys.push(k).drop_last() =~= keys);
    assert(vals.push(v).drop_last() =~= vals);
}

} // verus!
