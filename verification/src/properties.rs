use vstd::prelude::*;

verus! {

/// Whether no two entries of `entries` carry the same key.
pub open spec fn keys_distinct<V>(entries: Seq<(String, V)>) -> bool {
    forall|i: int, j: int|
        0 <= i < entries.len() && 0 <= j < entries.len() && i != j ==> #[trigger] entries[i].0@
            != #[trigger] entries[j].0@
}

/// Whether some entry of `entries` carries the key `key`.
pub open spec fn has_key<V>(entries: Seq<(String, V)>, key: Seq<char>) -> bool {
    exists|i: int| 0 <= i < entries.len() && #[trigger] entries[i].0@ == key
}

/// The position of an entry that carries `key` (meaningful when `has_key` holds).
pub open spec fn key_position<V>(entries: Seq<(String, V)>, key: Seq<char>) -> int {
    choose|i: int| 0 <= i < entries.len() && #[trigger] entries[i].0@ == key
}

/// The map from keys to values that a list of entries stands for.
pub open spec fn entries_map<V>(entries: Seq<(String, V)>) -> Map<Seq<char>, V> {
    Map::new(
        |key: Seq<char>| has_key(entries, key),
        |key: Seq<char>| entries[key_position(entries, key)].1,
    )
}

/// With distinct keys, the entry at `i` is the one found for its key.
pub proof fn lemma_key_position<V>(entries: Seq<(String, V)>, i: int)
    requires
        keys_distinct(entries),
        0 <= i < entries.len(),
    ensures
        has_key(entries, entries[i].0@),
        key_position(entries, entries[i].0@) == i,
        entries_map(entries).dom().contains(entries[i].0@),
        entries_map(entries)[entries[i].0@] == entries[i].1,
{
    assert(has_key(entries, entries[i].0@));
    let j = key_position(entries, entries[i].0@);
    assert(entries[j].0@ == entries[i].0@);
}

/// Every key of the map belongs to some entry, whose value the map holds.
pub proof fn lemma_map_entry<V>(entries: Seq<(String, V)>, key: Seq<char>)
    requires
        keys_distinct(entries),
        entries_map(entries).dom().contains(key),
    ensures
        0 <= key_position(entries, key) < entries.len(),
        entries[key_position(entries, key)].0@ == key,
        entries_map(entries)[key] == entries[key_position(entries, key)].1,
{
}

/// The empty list stands for the empty map.
pub proof fn lemma_empty_entries<V>(entries: Seq<(String, V)>)
    requires
        entries.len() == 0,
    ensures
        keys_distinct(entries),
        entries_map(entries) == Map::<Seq<char>, V>::empty(),
{
    assert(entries_map(entries) =~= Map::<Seq<char>, V>::empty());
}

/// Sets `key` to `value` in a list of entries with distinct keys: the entry that
/// carries the key keeps its place and gets the new value, else a new entry is
/// appended.
pub fn insert_entry<V>(entries: &mut Vec<(String, V)>, key: String, value: V)
    requires
        keys_distinct(old(entries)@),
    ensures
        keys_distinct(final(entries)@),
        entries_map(final(entries)@) == entries_map(old(entries)@).insert(key@, value),
        has_key(old(entries)@, key@) ==> final(entries)@.len() == old(entries)@.len(),
        !has_key(old(entries)@, key@) ==> final(entries)@ == old(entries)@.push((key, value)),
{
    let ghost before = entries@;
    let n = entries.len();
    let mut i: usize = 0;
    while i < n
        invariant
            n == entries.len(),
            entries@ == before,
            before == old(entries)@,
            keys_distinct(before),
            0 <= i <= n,
            forall|j: int| 0 <= j < i ==> #[trigger] before[j].0@ != key@,
        decreases n - i,
    {
        if entries[i].0 == key {
            let ghost k = key@;
            let ghost pair = (key, value);
            entries.set(i, (key, value));
            proof {
                let after = entries@;
                assert(after == before.update(i as int, pair));
                assert(after.len() == before.len());
                assert(after[i as int].1 == pair.1);
                assert(keys_distinct(after)) by {
                    assert forall|a: int, b: int|
                        0 <= a < after.len() && 0 <= b < after.len() && a != b implies
                        #[trigger] after[a].0@ != #[trigger] after[b].0@ by {
                        if a != i as int && b != i as int {
                            assert(after[a] == before[a] && after[b] == before[b]);
                        } else if a == i as int {
                            assert(after[b] == before[b]);
                        } else {
                            assert(after[a] == before[a]);
                        }
                    }
                }
                assert(has_key(before, k)) by {
                    assert(before[i as int].0@ == k);
                }
                assert(entries_map(after) =~= entries_map(before).insert(k, after[i as int].1)) by {
                    assert forall|x: Seq<char>|
                        #[trigger] entries_map(after).dom().contains(x) <==> entries_map(
                            before,
                        ).insert(k, after[i as int].1).dom().contains(x) by {
                        if entries_map(after).dom().contains(x) {
                            let p = key_position(after, x);
                            if p != i as int {
                                assert(before[p] == after[p]);
                                assert(has_key(before, x));
                            }
                        }
                        if entries_map(before).dom().contains(x) {
                            let p = key_position(before, x);
                            if p != i as int {
                                assert(before[p] == after[p]);
                            }
                            assert(after[p].0@ == x);
                            assert(has_key(after, x));
                        }
                    }
                    assert forall|x: Seq<char>| #[trigger]
                        entries_map(after).dom().contains(x) implies entries_map(after)[x]
                        == entries_map(before).insert(k, after[i as int].1)[x] by {
                        lemma_map_entry(after, x);
                        let p = key_position(after, x);
                        if p != i as int {
                            assert(before[p] == after[p]);
                            lemma_key_position(before, p);
                        } else {
                            assert(x == k);
                        }
                    }
                }
            }
            return;
        }
        i = i + 1;
    }
    let ghost k = key@;
    entries.push((key, value));
    proof {
        let after = entries@;
        assert(!has_key(before, k));
        assert(keys_distinct(after)) by {
            assert forall|a: int, b: int|
                0 <= a < after.len() && 0 <= b < after.len() && a != b implies
                #[trigger] after[a].0@ != #[trigger] after[b].0@ by {
                if a < before.len() && b < before.len() {
                    assert(after[a] == before[a] && after[b] == before[b]);
                } else if a < before.len() {
                    assert(after[a] == before[a]);
                } else {
                    assert(after[b] == before[b]);
                }
            }
        }
        let last = before.len() as int;
        assert(after[last].0@ == k);
        assert(entries_map(after) =~= entries_map(before).insert(k, after[last].1)) by {
            assert forall|x: Seq<char>|
                #[trigger] entries_map(after).dom().contains(x) <==> entries_map(before).insert(
                    k,
                    after[last].1,
                ).dom().contains(x) by {
                if entries_map(after).dom().contains(x) {
                    let p = key_position(after, x);
                    if p != last {
                        assert(before[p] == after[p]);
                        assert(has_key(before, x));
                    }
                }
                if entries_map(before).dom().contains(x) {
                    let p = key_position(before, x);
                    assert(before[p] == after[p]);
                    assert(has_key(after, x));
                }
                if x == k {
                    assert(has_key(after, x));
                }
            }
            assert forall|x: Seq<char>| #[trigger]
                entries_map(after).dom().contains(x) implies entries_map(after)[x]
                == entries_map(before).insert(k, after[last].1)[x] by {
                lemma_map_entry(after, x);
                let p = key_position(after, x);
                if p != last {
                    assert(before[p] == after[p]);
                    lemma_key_position(before, p);
                }
            }
        }
    }
}

} // verus!
