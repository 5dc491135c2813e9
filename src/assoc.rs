//! Finite maps modelled as sequences of key/value pairs.
//!
//! The in-memory collections of this crate keep their entries in a `Vec`.
//! Their abstract value is the map obtained by reading the pairs in order, a
//! later pair overriding an earlier one with the same key.
use vstd::prelude::*;

verus! {

/// The map that a sequence of pairs denotes: later pairs win.
pub open spec fn assoc_map<K, V>(pairs: Seq<(K, V)>) -> Map<K, V>
    decreases pairs.len(),
{
    if pairs.len() == 0 {
        Map::empty()
    } else {
        assoc_map(pairs.drop_last()).insert(pairs.last().0, pairs.last().1)
    }
}

/// No key occurs twice in the sequence.
pub open spec fn unique_keys<K, V>(pairs: Seq<(K, V)>) -> bool {
    forall|i: int, j: int|
        0 <= i < pairs.len() && 0 <= j < pairs.len() && i != j ==> pairs[i].0 != pairs[j].0
}

/// A key is in the map exactly when some pair carries it.
pub proof fn lemma_assoc_dom<K, V>(pairs: Seq<(K, V)>, k: K)
    ensures
        assoc_map(pairs).contains_key(k) <==> exists|i: int|
            0 <= i < pairs.len() && #[trigger] pairs[i].0 == k,
    decreases pairs.len(),
{
    if pairs.len() > 0 {
        let init = pairs.drop_last();
        lemma_assoc_dom(init, k);
        if assoc_map(pairs).contains_key(k) {
            if k == pairs.last().0 {
                assert(pairs[pairs.len() - 1].0 == k);
            } else {
                let i = choose|i: int| 0 <= i < init.len() && #[trigger] init[i].0 == k;
                assert(pairs[i].0 == k);
            }
        }
        if exists|i: int| 0 <= i < pairs.len() && #[trigger] pairs[i].0 == k {
            let i = choose|i: int| 0 <= i < pairs.len() && #[trigger] pairs[i].0 == k;
            if i < pairs.len() - 1 {
                assert(init[i].0 == k);
            }
        }
    }
}

/// With unique keys, the map sends each pair's key to that pair's value.
pub proof fn lemma_assoc_value<K, V>(pairs: Seq<(K, V)>, i: int)
    requires
        unique_keys(pairs),
        0 <= i < pairs.len(),
    ensures
        assoc_map(pairs).contains_key(pairs[i].0),
        assoc_map(pairs)[pairs[i].0] == pairs[i].1,
    decreases pairs.len(),
{
    let init = pairs.drop_last();
    if i < pairs.len() - 1 {
        assert(unique_keys(init));
        lemma_assoc_value(init, i);
        assert(init[i] == pairs[i]);
        assert(pairs.last().0 != pairs[i].0);
    }
}

/// Appending a pair inserts it into the map.
pub proof fn lemma_assoc_push<K, V>(pairs: Seq<(K, V)>, k: K, v: V)
    ensures
        assoc_map(pairs.push((k, v))) == assoc_map(pairs).insert(k, v),
{
    assert(pairs.push((k, v)).drop_last() =~= pairs);
}

/// Replacing the value of a pair changes the map at that pair's key only.
pub proof fn lemma_assoc_update<K, V>(pairs: Seq<(K, V)>, i: int, v: V)
    requires
        unique_keys(pairs),
        0 <= i < pairs.len(),
    ensures
        unique_keys(pairs.update(i, (pairs[i].0, v))),
        assoc_map(pairs.update(i, (pairs[i].0, v))) == assoc_map(pairs).insert(pairs[i].0, v),
    decreases pairs.len(),
{
    let k = pairs[i].0;
    let upd = pairs.update(i, (k, v));
    assert(unique_keys(upd)) by {
        assert forall|a: int, b: int|
            0 <= a < upd.len() && 0 <= b < upd.len() && a != b implies upd[a].0 != upd[b].0 by {
            assert(upd[a].0 == pairs[a].0);
            assert(upd[b].0 == pairs[b].0);
        }
    }
    let init = pairs.drop_last();
    if i == pairs.len() - 1 {
        assert(upd.drop_last() =~= init);
        assert(upd.last() == (k, v));
        assert(assoc_map(upd) =~= assoc_map(pairs).insert(k, v));
    } else {
        assert(unique_keys(init));
        lemma_assoc_update(init, i, v);
        assert(upd.drop_last() =~= init.update(i, (k, v)));
        assert(pairs.last().0 != k);
        assert(assoc_map(upd) =~= assoc_map(pairs).insert(k, v));
    }
}

/// Removing a pair removes its key from the map.
pub proof fn lemma_assoc_remove<K, V>(pairs: Seq<(K, V)>, i: int)
    requires
        unique_keys(pairs),
        0 <= i < pairs.len(),
    ensures
        unique_keys(pairs.remove(i)),
        assoc_map(pairs.remove(i)) == assoc_map(pairs).remove(pairs[i].0),
    decreases pairs.len(),
{
    let k = pairs[i].0;
    let rem = pairs.remove(i);
    assert(unique_keys(rem)) by {
        assert forall|a: int, b: int|
            0 <= a < rem.len() && 0 <= b < rem.len() && a != b implies rem[a].0 != rem[b].0 by {
            let a2 = if a < i { a } else { a + 1 };
            let b2 = if b < i { b } else { b + 1 };
            assert(rem[a] == pairs[a2]);
            assert(rem[b] == pairs[b2]);
        }
    }
    let init = pairs.drop_last();
    if i == pairs.len() - 1 {
        assert(rem =~= init);
        lemma_assoc_dom(init, k);
        assert forall|j: int| 0 <= j < init.len() implies init[j].0 != k by {
            assert(init[j] == pairs[j]);
        }
        assert(assoc_map(rem) =~= assoc_map(pairs).remove(k));
    } else {
        assert(unique_keys(init));
        lemma_assoc_remove(init, i);
        assert(rem.drop_last() =~= init.remove(i));
        assert(rem.last() == pairs.last());
        assert(pairs.last().0 != k);
        assert(assoc_map(rem) =~= assoc_map(pairs).remove(k));
    }
}

/// Appending a pair whose key is new keeps the keys unique.
pub proof fn lemma_unique_push<K, V>(pairs: Seq<(K, V)>, k: K, v: V)
    requires
        unique_keys(pairs),
        !assoc_map(pairs).contains_key(k),
    ensures
        unique_keys(pairs.push((k, v))),
{
    lemma_assoc_dom(pairs, k);
    let p = pairs.push((k, v));
    assert forall|a: int, b: int|
        0 <= a < p.len() && 0 <= b < p.len() && a != b implies p[a].0 != p[b].0 by {
        if a < pairs.len() && b < pairs.len() {
            assert(p[a] == pairs[a] && p[b] == pairs[b]);
        } else if a < pairs.len() {
            assert(p[a] == pairs[a]);
        } else {
            assert(p[b] == pairs[b]);
        }
    }
}

/// With unique keys, the map has one key per pair.
pub proof fn lemma_assoc_len<K, V>(pairs: Seq<(K, V)>)
    requires
        unique_keys(pairs),
    ensures
        assoc_map(pairs).len() == pairs.len(),
        assoc_map(pairs).dom().finite(),
    decreases pairs.len(),
{
    if pairs.len() > 0 {
        let init = pairs.drop_last();
        assert(unique_keys(init));
        lemma_assoc_len(init);
        lemma_assoc_dom(init, pairs.last().0);
        assert forall|j: int| 0 <= j < init.len() implies init[j].0 != pairs.last().0 by {
            assert(init[j] == pairs[j]);
        }
    }
}

} // verus!
