//! Maps kept as lists of entries, in which a later entry overrides an
//! earlier one for the same key.
use vstd::prelude::*;

verus! {

/// The map that a list of entries stands for.
pub open spec fn assoc_map<V>(entries: Seq<(Seq<char>, V)>) -> Map<Seq<char>, V>
    decreases entries.len(),
{
    if entries.len() == 0 {
        Map::empty()
    } else {
        assoc_map(entries.drop_last()).insert(entries.last().0, entries.last().1)
    }
}

/// A key for which `entries` has an entry has, in the map, the value of the
/// last such entry.
pub proof fn lemma_assoc_last<V>(entries: Seq<(Seq<char>, V)>, key: Seq<char>, k: int)
    requires
        0 <= k < entries.len(),
        entries[k].0 == key,
        forall|j: int| k < j < entries.len() ==> (#[trigger] entries[j]).0 != key,
    ensures
        assoc_map(entries).contains_key(key),
        assoc_map(entries)[key] == entries[k].1,
    decreases entries.len(),
{
    if k < entries.len() - 1 {
        let front = entries.drop_last();
        assert(front[k] == entries[k]);
        assert forall|j: int| k < j < front.len() implies (#[trigger] front[j]).0 != key by {
            assert(front[j] == entries[j]);
        }
        lemma_assoc_last(front, key, k);
        assert(entries[entries.len() - 1].0 != key);
    }
}

/// A key for which `entries` has no entry is no key of the map.
pub proof fn lemma_assoc_absent<V>(entries: Seq<(Seq<char>, V)>, key: Seq<char>)
    requires
        forall|j: int| 0 <= j < entries.len() ==> (#[trigger] entries[j]).0 != key,
    ensures
        !assoc_map(entries).contains_key(key),
    decreases entries.len(),
{
    if entries.len() > 0 {
        let front = entries.drop_last();
        assert forall|j: int| 0 <= j < front.len() implies (#[trigger] front[j]).0 != key by {
            assert(front[j] == entries[j]);
        }
        lemma_assoc_absent(front, key);
        assert(entries[entries.len() - 1].0 != key);
    }
}

} // verus!
