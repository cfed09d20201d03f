//! The mathematical model of a bounded least-recently-used map: a sequence
//! of entries ordered by recency, the least recently used entry first and the
//! most recently used one last.

use vstd::prelude::*;

verus! {

/// Whether some entry has the key.
pub open spec fn has_key<K, V>(entries: Seq<(K, V)>, key: K) -> bool {
    exists|i: int| 0 <= i < entries.len() && (#[trigger] entries[i]).0 == key
}

/// The place of an entry with the key; meaningful where `has_key` holds.
pub open spec fn position<K, V>(entries: Seq<(K, V)>, key: K) -> int {
    choose|i: int| 0 <= i < entries.len() && (#[trigger] entries[i]).0 == key
}

/// The value stored under the key; meaningful where `has_key` holds.
pub open spec fn value_of<K, V>(entries: Seq<(K, V)>, key: K) -> V {
    entries[position(entries, key)].1
}

/// No key occurs in two entries.
pub open spec fn distinct_keys<K, V>(entries: Seq<(K, V)>) -> bool {
    forall|i: int, j: int|
        0 <= i < j < entries.len() ==> (#[trigger] entries[i]).0 != (#[trigger] entries[j]).0
}

/// What a bounded map with the given capacity may hold: at most `capacity`
/// entries, no key twice.
pub open spec fn bounded<K, V>(entries: Seq<(K, V)>, capacity: nat) -> bool {
    distinct_keys(entries) && entries.len() <= capacity
}

/// The entries after a look-up of `key`: an entry with that key becomes the
/// most recently used one, the others keep their order.
pub open spec fn refreshed<K, V>(entries: Seq<(K, V)>, key: K) -> Seq<(K, V)> {
    if has_key(entries, key) {
        let at = position(entries, key);
        entries.remove(at).push(entries[at])
    } else {
        entries
    }
}

/// The entries after the removal of `key`: the others keep their order.
pub open spec fn removed<K, V>(entries: Seq<(K, V)>, key: K) -> Seq<(K, V)> {
    if has_key(entries, key) {
        entries.remove(position(entries, key))
    } else {
        entries
    }
}

/// The entries after `key` was pushed with `value` into a map of the given
/// capacity. A key that is present gets the new value and becomes the most
/// recently used one. A new key is appended as the most recently used one,
/// after the least recently used entry has left if the map was full. A map
/// of capacity zero takes nothing in.
pub open spec fn pushed<K, V>(entries: Seq<(K, V)>, capacity: nat, key: K, value: V) -> Seq<
    (K, V),
> {
    if has_key(entries, key) {
        entries.remove(position(entries, key)).push((key, value))
    } else if capacity == 0 {
        entries
    } else if entries.len() == capacity {
        entries.drop_first().push((key, value))
    } else {
        entries.push((key, value))
    }
}

/// The entry that leaves when `key` is pushed: the entry that had the key, or
/// else the least recently used entry of a full map, or else none.
pub open spec fn displaced<K, V>(entries: Seq<(K, V)>, capacity: nat, key: K) -> Option<(K, V)> {
    if has_key(entries, key) {
        Some((key, value_of(entries, key)))
    } else if capacity == 0 {
        None
    } else if entries.len() == capacity {
        Some(entries[0])
    } else {
        None
    }
}

/// Where no key occurs twice, the place of a key is the one place at which
/// it occurs.
pub proof fn lemma_position_is_unique<K, V>(entries: Seq<(K, V)>, at: int)
    requires
        distinct_keys(entries),
        0 <= at < entries.len(),
    ensures
        has_key(entries, entries[at].0),
        position(entries, entries[at].0) == at,
        value_of(entries, entries[at].0) == entries[at].1,
{
}

/// A look-up keeps the entries and only changes their order: the entry that
/// was looked up is the most recently used one afterwards, every key that
/// was present still is, with its value, and the bound still holds.
pub proof fn lemma_refreshed<K, V>(entries: Seq<(K, V)>, capacity: nat, key: K)
    requires
        bounded(entries, capacity),
    ensures
        bounded(refreshed(entries, key), capacity),
        refreshed(entries, key).len() == entries.len(),
        has_key(entries, key) ==> refreshed(entries, key).last() == (
            key,
            value_of(entries, key),
        ),
        forall|other: K| has_key(refreshed(entries, key), other) == has_key(entries, other),
        forall|other: K| #[trigger]
            has_key(entries, other) ==> value_of(refreshed(entries, key), other) == value_of(
                entries,
                other,
            ),
{
    let after = refreshed(entries, key);
    if has_key(entries, key) {
        let at = position(entries, key);
        let rest = entries.remove(at);
        assert forall|i: int, j: int| 0 <= i < j < after.len() implies (#[trigger] after[i]).0
            != (#[trigger] after[j]).0 by {}
        assert forall|other: K| has_key(after, other) == has_key(entries, other) by {
            if has_key(entries, other) {
                let j = position(entries, other);
                let i = if j == at {
                    rest.len() as int
                } else if j < at {
                    j
                } else {
                    j - 1
                };
                assert(after[i] == entries[j]);
            }
        }
        assert forall|other: K| #[trigger] has_key(entries, other) implies value_of(after, other)
            == value_of(entries, other) by {
            let j = position(entries, other);
            let i = if j == at {
                rest.len() as int
            } else if j < at {
                j
            } else {
                j - 1
            };
            lemma_position_is_unique(after, i);
        }
    }
}

/// A removal takes exactly the entry of the key away: the key is absent
/// afterwards, every other key is present as before, with its value, and
/// the bound still holds.
pub proof fn lemma_removed<K, V>(entries: Seq<(K, V)>, capacity: nat, key: K)
    requires
        bounded(entries, capacity),
    ensures
        bounded(removed(entries, key), capacity),
        !has_key(removed(entries, key), key),
        has_key(entries, key) ==> removed(entries, key).len() + 1 == entries.len(),
        forall|other: K|
            other != key ==> has_key(removed(entries, key), other) == has_key(entries, other),
        forall|other: K| #[trigger]
            has_key(entries, other) && other != key ==> value_of(removed(entries, key), other)
                == value_of(entries, other),
{
    let after = removed(entries, key);
    if has_key(entries, key) {
        let at = position(entries, key);
        assert forall|i: int| 0 <= i < after.len() implies #[trigger] after[i] == entries[if i
            < at {
            i
        } else {
            i + 1
        }] by {}
        assert forall|i: int, j: int| 0 <= i < j < after.len() implies (#[trigger] after[i]).0
            != (#[trigger] after[j]).0 by {}
        assert forall|other: K| other != key implies has_key(after, other) == has_key(
            entries,
            other,
        ) by {
            if has_key(entries, other) {
                let j = position(entries, other);
                let i = if j < at {
                    j
                } else {
                    j - 1
                };
                assert(after[i] == entries[j]);
            }
        }
        assert forall|other: K| #[trigger] has_key(entries, other) && other != key implies value_of(
            after,
            other,
        ) == value_of(entries, other) by {
            let j = position(entries, other);
            let i = if j < at {
                j
            } else {
                j - 1
            };
            lemma_position_is_unique(after, i);
        }
    }
}

/// Removing a key after it was looked up leaves what removing it at once
/// would have left: the look-up moved no other entry.
pub proof fn lemma_refresh_then_remove<K, V>(entries: Seq<(K, V)>, capacity: nat, key: K)
    requires
        bounded(entries, capacity),
    ensures
        removed(refreshed(entries, key), key) == removed(entries, key),
        has_key(entries, key) ==> value_of(refreshed(entries, key), key) == value_of(entries, key),
{
    if has_key(entries, key) {
        lemma_refreshed(entries, capacity, key);
        lemma_position_is_unique(refreshed(entries, key), entries.len() - 1);
    }
}

/// Taking the least recently used entry away is the removal of its key.
pub proof fn lemma_drop_least_recent<K, V>(entries: Seq<(K, V)>, capacity: nat)
    requires
        bounded(entries, capacity),
        entries.len() > 0,
    ensures
        entries.drop_first() == removed(entries, entries[0].0),
{
    lemma_position_is_unique(entries, 0);
}

/// Appending an entry with a new key makes it the most recently used one
/// and leaves the others as they were.
pub proof fn lemma_appended<K, V>(entries: Seq<(K, V)>, key: K, value: V)
    requires
        distinct_keys(entries),
        !has_key(entries, key),
    ensures
        distinct_keys(entries.push((key, value))),
        has_key(entries.push((key, value)), key),
        value_of(entries.push((key, value)), key) == value,
        forall|other: K|
            other != key ==> has_key(entries.push((key, value)), other) == has_key(entries, other),
        forall|other: K| #[trigger]
            has_key(entries, other) ==> value_of(entries.push((key, value)), other) == value_of(
                entries,
                other,
            ),
{
    let after = entries.push((key, value));
    let end = entries.len() as int;
    assert forall|i: int, j: int| 0 <= i < j < after.len() implies (#[trigger] after[i]).0
        != (#[trigger] after[j]).0 by {}
    lemma_position_is_unique(after, end);
    assert forall|other: K| other != key implies has_key(after, other) == has_key(
        entries,
        other,
    ) by {
        if has_key(entries, other) {
            let j = position(entries, other);
            assert(after[j] == entries[j]);
        }
    }
    assert forall|other: K| #[trigger] has_key(entries, other) implies value_of(after, other)
        == value_of(entries, other) by {
        let j = position(entries, other);
        lemma_position_is_unique(after, j);
    }
}

/// A push into a map that can hold something stores the value under the key
/// as the most recently used entry and never exceeds the capacity. Only a
/// full map evicts for a new key, and then the entry that leaves is the least
/// recently used one; every other entry stays, with its value.
pub proof fn lemma_pushed<K, V>(entries: Seq<(K, V)>, capacity: nat, key: K, value: V)
    requires
        bounded(entries, capacity),
        capacity > 0,
    ensures
        bounded(pushed(entries, capacity, key, value), capacity),
        pushed(entries, capacity, key, value).last() == (key, value),
        has_key(pushed(entries, capacity, key, value), key),
        value_of(pushed(entries, capacity, key, value), key) == value,
        !has_key(entries, key) && entries.len() < capacity ==> displaced(entries, capacity, key)
            is None,
        !has_key(entries, key) && entries.len() == capacity ==> displaced(entries, capacity, key)
            == Some(entries[0]),
        forall|other: K|
            other != key ==> has_key(pushed(entries, capacity, key, value), other) == (has_key(
                entries,
                other,
            ) && !(displaced(entries, capacity, key) matches Some(left) && left.0 == other)),
        forall|other: K| #[trigger]
            has_key(pushed(entries, capacity, key, value), other) && other != key ==> value_of(
                pushed(entries, capacity, key, value),
                other,
            ) == value_of(entries, other),
{
    if has_key(entries, key) {
        lemma_removed(entries, capacity, key);
        lemma_appended(removed(entries, key), key, value);
    } else if entries.len() == capacity {
        lemma_drop_least_recent(entries, capacity);
        lemma_removed(entries, capacity, entries[0].0);
        lemma_appended(entries.drop_first(), key, value);
        lemma_position_is_unique(entries, 0);
    } else {
        lemma_appended(entries, key, value);
    }
}

} // verus!
