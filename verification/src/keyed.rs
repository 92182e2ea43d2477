//! Sequences of key/value entries read as maps: the model of the keyed
//! collections of the deck (screens, buttons of a screen, icons, variables).

use vstd::prelude::*;

verus! {

/// The map that a sequence of entries stands for; a later entry for a key
/// replaces an earlier one.
pub open spec fn map_of<K, V>(e: Seq<(K, V)>) -> Map<K, V>
    decreases e.len(),
{
    if e.len() == 0 {
        Map::empty()
    } else {
        map_of(e.drop_last()).insert(e.last().0, e.last().1)
    }
}

/// The keys of a sequence of entries, in order.
pub open spec fn keys_of<K, V>(e: Seq<(K, V)>) -> Seq<K> {
    e.map_values(|p: (K, V)| p.0)
}

/// No key occurs twice.
pub open spec fn keys_unique<K, V>(e: Seq<(K, V)>) -> bool {
    forall|i: int, j: int| 0 <= i < e.len() && 0 <= j < e.len() && i != j ==> e[i].0 != e[j].0
}

/// Whether some entry has the key `k`.
pub open spec fn has_key<K, V>(e: Seq<(K, V)>, k: K) -> bool {
    exists|i: int| 0 <= i < e.len() && e[i].0 == k
}

/// The position of the entry with key `k`, or -1 when there is none.
pub open spec fn index_of_key<K, V>(e: Seq<(K, V)>, k: K) -> int {
    if has_key(e, k) {
        choose|i: int| 0 <= i < e.len() && e[i].0 == k
    } else {
        -1
    }
}

/// The entry with a key is at the position `index_of_key` gives, and that
/// position is the only one with the key.
pub proof fn lemma_index_of_key<K, V>(e: Seq<(K, V)>, k: K, i: int)
    requires
        keys_unique(e),
        0 <= i < e.len(),
        e[i].0 == k,
    ensures
        index_of_key(e, k) == i,
{
    assert(has_key(e, k));
}

/// The keys of the map of entries are exactly the keys of the entries.
pub proof fn lemma_map_of_dom<K, V>(e: Seq<(K, V)>, k: K)
    ensures
        map_of(e).contains_key(k) == has_key(e, k),
    decreases e.len(),
{
    if e.len() > 0 {
        lemma_map_of_dom(e.drop_last(), k);
        if has_key(e.drop_last(), k) {
            let i = choose|i: int| 0 <= i < e.drop_last().len() && e.drop_last()[i].0 == k;
            assert(e[i].0 == k);
        }
        if has_key(e, k) && e.last().0 != k {
            let i = choose|i: int| 0 <= i < e.len() && e[i].0 == k;
            assert(i < e.len() - 1);
            assert(e.drop_last()[i].0 == k);
        }
        if e.last().0 == k {
            assert(e[e.len() - 1].0 == k);
        }
    }
}

/// With unique keys, the map gives each entry's value for its key.
pub proof fn lemma_map_of_value<K, V>(e: Seq<(K, V)>, i: int)
    requires
        keys_unique(e),
        0 <= i < e.len(),
    ensures
        map_of(e).contains_key(e[i].0),
        map_of(e)[e[i].0] == e[i].1,
    decreases e.len(),
{
    if i < e.len() - 1 {
        let d = e.drop_last();
        assert(keys_unique(d));
        lemma_map_of_value(d, i);
        assert(d[i] == e[i]);
        assert(e.last().0 != e[i].0);
    }
}

/// The map of entries with one entry's value replaced.
pub proof fn lemma_map_of_update<K, V>(e: Seq<(K, V)>, i: int, v: V)
    requires
        keys_unique(e),
        0 <= i < e.len(),
    ensures
        keys_unique(e.update(i, (e[i].0, v))),
        map_of(e.update(i, (e[i].0, v))) == map_of(e).insert(e[i].0, v),
{
    let f = e.update(i, (e[i].0, v));
    assert(keys_unique(f)) by {
        assert forall|a: int, b: int|
            0 <= a < f.len() && 0 <= b < f.len() && a != b implies f[a].0 != f[b].0 by {
            assert(f[a].0 == e[a].0);
            assert(f[b].0 == e[b].0);
        }
    }
    assert forall|k: K| #[trigger] map_of(f).contains_key(k) == map_of(e).insert(e[i].0, v).contains_key(k) by {
        lemma_map_of_dom(f, k);
        lemma_map_of_dom(e, k);
        if has_key(f, k) {
            let j = choose|j: int| 0 <= j < f.len() && f[j].0 == k;
            assert(e[j].0 == k);
        }
        if has_key(e, k) {
            let j = choose|j: int| 0 <= j < e.len() && e[j].0 == k;
            assert(f[j].0 == k);
        }
    }
    assert forall|k: K| #[trigger] map_of(f).contains_key(k) implies map_of(f)[k] == map_of(e).insert(
        e[i].0,
        v,
    )[k] by {
        lemma_map_of_dom(f, k);
        let j = choose|j: int| 0 <= j < f.len() && f[j].0 == k;
        lemma_map_of_value(f, j);
        if j != i {
            lemma_map_of_value(e, j);
        }
    }
    assert(map_of(f) =~= map_of(e).insert(e[i].0, v));
}

/// The map of entries with a new key appended.
pub proof fn lemma_map_of_push<K, V>(e: Seq<(K, V)>, k: K, v: V)
    requires
        keys_unique(e),
        !has_key(e, k),
    ensures
        keys_unique(e.push((k, v))),
        map_of(e.push((k, v))) == map_of(e).insert(k, v),
{
    let f = e.push((k, v));
    assert(f.drop_last() =~= e);
    assert forall|a: int, b: int|
        0 <= a < f.len() && 0 <= b < f.len() && a != b implies f[a].0 != f[b].0 by {
        if a == e.len() {
            assert(f[b] == e[b]);
        } else if b == e.len() {
            assert(f[a] == e[a]);
        } else {
            assert(f[a] == e[a]);
            assert(f[b] == e[b]);
        }
    }
}

/// The map of entries with one entry taken out.
pub proof fn lemma_map_of_remove<K, V>(e: Seq<(K, V)>, i: int)
    requires
        keys_unique(e),
        0 <= i < e.len(),
    ensures
        keys_unique(e.remove(i)),
        map_of(e.remove(i)) == map_of(e).remove(e[i].0),
{
    let f = e.remove(i);
    let k0 = e[i].0;
    assert forall|a: int, b: int|
        0 <= a < f.len() && 0 <= b < f.len() && a != b implies f[a].0 != f[b].0 by {
        let ea = if a < i { a } else { a + 1 };
        let eb = if b < i { b } else { b + 1 };
        assert(f[a] == e[ea]);
        assert(f[b] == e[eb]);
    }
    assert forall|k: K| #[trigger] map_of(f).contains_key(k) == map_of(e).remove(k0).contains_key(k) by {
        lemma_map_of_dom(f, k);
        lemma_map_of_dom(e, k);
        if has_key(f, k) {
            let j = choose|j: int| 0 <= j < f.len() && f[j].0 == k;
            let ej = if j < i { j } else { j + 1 };
            assert(f[j] == e[ej]);
            assert(e[ej].0 != k0);
        }
        if has_key(e, k) && k != k0 {
            let j = choose|j: int| 0 <= j < e.len() && e[j].0 == k;
            assert(j != i);
            let fj = if j < i { j } else { j - 1 };
            assert(f[fj] == e[j]);
        }
    }
    assert forall|k: K| #[trigger] map_of(f).contains_key(k) implies map_of(f)[k] == map_of(e).remove(
        k0,
    )[k] by {
        lemma_map_of_dom(f, k);
        let j = choose|j: int| 0 <= j < f.len() && f[j].0 == k;
        let ej = if j < i { j } else { j + 1 };
        assert(f[j] == e[ej]);
        lemma_map_of_value(f, j);
        lemma_map_of_value(e, ej);
    }
    assert(map_of(f) =~= map_of(e).remove(k0));
}

/// The entries after setting `k` to `v`: in place when `k` is there,
/// appended otherwise.
pub open spec fn entry_insert<K, V>(e: Seq<(K, V)>, k: K, v: V) -> Seq<(K, V)> {
    if has_key(e, k) {
        e.update(index_of_key(e, k), (k, v))
    } else {
        e.push((k, v))
    }
}

/// The entries without the one for `k`, the others keeping their order.
pub open spec fn entry_remove<K, V>(e: Seq<(K, V)>, k: K) -> Seq<(K, V)> {
    if has_key(e, k) {
        e.remove(index_of_key(e, k))
    } else {
        e
    }
}

/// The entries that setting the pairs one after the other gives.
pub open spec fn insert_all<K, V>(e: Seq<(K, V)>, pairs: Seq<(K, V)>) -> Seq<(K, V)>
    decreases pairs.len(),
{
    if pairs.len() == 0 {
        e
    } else {
        entry_insert(insert_all(e, pairs.drop_last()), pairs.last().0, pairs.last().1)
    }
}

/// Setting a key keeps the keys unique and sets it in the map.
pub proof fn lemma_entry_insert<K, V>(e: Seq<(K, V)>, k: K, v: V)
    requires
        keys_unique(e),
    ensures
        keys_unique(entry_insert(e, k, v)),
        map_of(entry_insert(e, k, v)) == map_of(e).insert(k, v),
{
    if has_key(e, k) {
        let i = index_of_key(e, k);
        lemma_map_of_update(e, i, v);
    } else {
        lemma_map_of_push(e, k, v);
    }
}

/// Taking a key out keeps the keys unique and takes it out of the map.
pub proof fn lemma_entry_remove<K, V>(e: Seq<(K, V)>, k: K)
    requires
        keys_unique(e),
    ensures
        keys_unique(entry_remove(e, k)),
        map_of(entry_remove(e, k)) == map_of(e).remove(k),
{
    if has_key(e, k) {
        let i = index_of_key(e, k);
        lemma_map_of_remove(e, i);
    } else {
        lemma_map_of_dom(e, k);
        assert(map_of(e).remove(k) =~= map_of(e));
    }
}

/// Setting pairs one after the other into no entries gives unique keys and
/// the map of the pairs.
pub proof fn lemma_insert_all_map<K, V>(pairs: Seq<(K, V)>)
    ensures
        keys_unique(insert_all(Seq::<(K, V)>::empty(), pairs)),
        map_of(insert_all(Seq::<(K, V)>::empty(), pairs)) == map_of(pairs),
    decreases pairs.len(),
{
    if pairs.len() > 0 {
        lemma_insert_all_map(pairs.drop_last());
        lemma_entry_insert(
            insert_all(Seq::<(K, V)>::empty(), pairs.drop_last()),
            pairs.last().0,
            pairs.last().1,
        );
    }
}

/// Setting pairs with unique keys one after the other into no entries gives
/// the same pairs in the same order.
pub proof fn lemma_insert_all_unique<K, V>(pairs: Seq<(K, V)>)
    requires
        keys_unique(pairs),
    ensures
        insert_all(Seq::<(K, V)>::empty(), pairs) == pairs,
    decreases pairs.len(),
{
    if pairs.len() > 0 {
        let d = pairs.drop_last();
        assert(keys_unique(d));
        lemma_insert_all_unique(d);
        let k = pairs.last().0;
        if has_key(d, k) {
            let j = choose|j: int| 0 <= j < d.len() && d[j].0 == k;
            assert(pairs[j].0 == pairs[pairs.len() - 1].0);
        }
        assert(d.push(pairs.last()) =~= pairs);
    }
}

/// A key of the map of entries comes with its value from one of the
/// entries.
pub proof fn lemma_map_of_from_entry<K, V>(e: Seq<(K, V)>, k: K)
    requires
        map_of(e).contains_key(k),
    ensures
        e.contains((k, map_of(e)[k])),
    decreases e.len(),
{
    if e.len() > 0 {
        if e.last().0 == k {
            assert(e[e.len() - 1] == (k, map_of(e)[k]));
        } else {
            lemma_map_of_from_entry(e.drop_last(), k);
            let i = choose|i: int|
                0 <= i < e.drop_last().len() && e.drop_last()[i] == (k, map_of(e.drop_last())[k]);
            assert(e[i] == e.drop_last()[i]);
        }
    }
}

} // verus!
