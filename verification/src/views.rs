//! Views of the collections that records are made of.
use vstd::prelude::*;

verus! {

/// The view of each element, in order.
pub open spec fn views<T: View>(items: Seq<T>) -> Seq<T::V> {
    Seq::new(items.len(), |i: int| items[i]@)
}

/// The view of what an option holds.
pub open spec fn opt_view<T: View>(item: Option<T>) -> Option<T::V> {
    match item {
        Some(x) => Some(x@),
        None => None,
    }
}

/// The views of the elements of an optional list.
pub open spec fn opt_views<T: View>(items: Option<Vec<T>>) -> Option<Seq<T::V>> {
    match items {
        Some(v) => Some(views(v@)),
        None => None,
    }
}

/// The map that a list of keyed entries stands for when the entries are
/// inserted one after the other: a later entry replaces an earlier one of
/// the same key.
pub open spec fn keyed<K, V>(entries: Seq<(K, V)>) -> Map<K, V>
    decreases entries.len(),
{
    if entries.len() == 0 {
        Map::empty()
    } else {
        keyed(entries.drop_last()).insert(entries.last().0, entries.last().1)
    }
}

/// Whether no key comes twice in a list of keyed entries.
pub open spec fn distinct_keys<K, V>(entries: Seq<(K, V)>) -> bool {
    forall|i: int, j: int|
        0 <= i < j < entries.len() ==> (#[trigger] entries[i]).0 != (#[trigger] entries[j]).0
}

/// Appending one element appends its view.
pub proof fn lemma_views_push<T: View>(items: Seq<T>, item: T)
    ensures
        views(items.push(item)) == views(items).push(item@),
{
    assert(views(items.push(item)) =~= views(items).push(item@));
}

/// Appending an entry inserts it into the map.
pub proof fn lemma_keyed_push<K, V>(entries: Seq<(K, V)>, key: K, value: V)
    ensures
        keyed(entries.push((key, value))) == keyed(entries).insert(key, value),
{
    assert(entries.push((key, value)).drop_last() =~= entries);
}

/// Replacing the entry of a key inserts the new value into the map.
pub proof fn lemma_keyed_update<K, V>(entries: Seq<(K, V)>, i: int, value: V)
    requires
        distinct_keys(entries),
        0 <= i < entries.len(),
    ensures
        keyed(entries.update(i, (entries[i].0, value))) == keyed(entries).insert(
            entries[i].0,
            value,
        ),
        distinct_keys(entries.update(i, (entries[i].0, value))),
    decreases entries.len(),
{
    let key = entries[i].0;
    let updated = entries.update(i, (key, value));
    if i == entries.len() - 1 {
        assert(updated.drop_last() =~= entries.drop_last());
        assert(keyed(updated) =~= keyed(entries).insert(key, value));
    } else {
        assert(updated.drop_last() =~= entries.drop_last().update(i, (key, value)));
        assert(entries.drop_last()[i] == entries[i]);
        assert(distinct_keys(entries.drop_last())) by {
            assert forall|a: int, b: int| 0 <= a < b < entries.drop_last().len() implies (
            #[trigger] entries.drop_last()[a]).0 != (#[trigger] entries.drop_last()[b]).0 by {
                assert(entries.drop_last()[a] == entries[a]);
                assert(entries.drop_last()[b] == entries[b]);
            }
        }
        lemma_keyed_update(entries.drop_last(), i, value);
        assert(entries.last().0 != key);
        assert(keyed(updated) =~= keyed(entries).insert(key, value));
    }
    assert forall|a: int, b: int| 0 <= a < b < updated.len() implies (#[trigger] updated[a]).0 != (
    #[trigger] updated[b]).0 by {
        assert(updated[a].0 == entries[a].0);
        assert(updated[b].0 == entries[b].0);
    }
}

} // verus!
