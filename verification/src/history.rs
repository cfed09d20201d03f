//! What the order of the entries means: however a bounded map was used, its
//! entries stand in the order in which their keys were last used, so the
//! entry that a full map evicts is the one that was used longest ago.

use vstd::prelude::*;

use crate::recency::{
    bounded, displaced, has_key, lemma_pushed, lemma_refreshed, lemma_removed, position, pushed,
    refreshed, removed,
};

verus! {

/// One use of the map.
pub enum Access<K, V> {
    /// A value was pushed for the key.
    Push(K, V),
    /// The key was looked up for a delivery.
    Lookup(K),
    /// The entry of the key was taken out.
    Remove(K),
}

/// Whether the access counts as a use of the key: a push and a look-up do,
/// a removal does not.
pub open spec fn uses<K, V>(access: Access<K, V>, key: K) -> bool {
    match access {
        Access::Push(pushed_key, _) => pushed_key == key,
        Access::Lookup(looked_up) => looked_up == key,
        Access::Remove(_) => false,
    }
}

/// The entries after one more access.
pub open spec fn step<K, V>(entries: Seq<(K, V)>, capacity: nat, access: Access<K, V>) -> Seq<
    (K, V),
> {
    match access {
        Access::Push(key, value) => pushed(entries, capacity, key, value),
        Access::Lookup(key) => refreshed(entries, key),
        Access::Remove(key) => removed(entries, key),
    }
}

/// The entries of a map of the given capacity that started empty and went
/// through the accesses of `history`, the earliest first.
pub open spec fn replay<K, V>(history: Seq<Access<K, V>>, capacity: nat) -> Seq<(K, V)>
    decreases history.len(),
{
    if history.len() == 0 {
        Seq::empty()
    } else {
        step(replay(history.drop_last(), capacity), capacity, history.last())
    }
}

/// When the key was last used: the place in `history` of the latest push or
/// look-up of the key, or -1 if there is none.
pub open spec fn last_use<K, V>(history: Seq<Access<K, V>>, key: K) -> int
    decreases history.len(),
{
    if history.len() == 0 {
        -1
    } else if uses(history.last(), key) {
        history.len() - 1
    } else {
        last_use(history.drop_last(), key)
    }
}

/// Every entry's key was used at some time, and an entry that stands before
/// another was last used before it.
pub open spec fn ordered_by_last_use<K, V>(
    entries: Seq<(K, V)>,
    history: Seq<Access<K, V>>,
) -> bool {
    &&& forall|i: int| 0 <= i < entries.len() ==> 0 <= last_use(history, (#[trigger] entries[i]).0)
    &&& forall|i: int, j: int|
        0 <= i < j < entries.len() ==> last_use(history, (#[trigger] entries[i]).0) < last_use(
            history,
            (#[trigger] entries[j]).0,
        )
}

/// One more access takes the replayed entries one step further.
pub proof fn lemma_replay_step<K, V>(
    history: Seq<Access<K, V>>,
    capacity: nat,
    access: Access<K, V>,
)
    ensures
        replay(history.push(access), capacity) == step(
            replay(history, capacity),
            capacity,
            access,
        ),
{
    assert(history.push(access).drop_last() =~= history);
}

/// The last use of a key lies within the history.
pub proof fn lemma_last_use_in_range<K, V>(history: Seq<Access<K, V>>, key: K)
    ensures
        -1 <= last_use(history, key) < history.len(),
    decreases history.len(),
{
    if history.len() > 0 && !uses(history.last(), key) {
        lemma_last_use_in_range(history.drop_last(), key);
    }
}

/// However a map that can hold something was used, it holds at most its
/// capacity, no key twice, and its entries stand in the order of their last
/// use: the least recently used entry first, the most recently used one
/// last. Pushes, pushes of a key that is present and look-ups all count as
/// uses.
pub proof fn lemma_replay_is_ordered_by_last_use<K, V>(history: Seq<Access<K, V>>, capacity: nat)
    requires
        capacity > 0,
    ensures
        bounded(replay(history, capacity), capacity),
        ordered_by_last_use(replay(history, capacity), history),
    decreases history.len(),
{
    if history.len() > 0 {
        let earlier = history.drop_last();
        let access = history.last();
        let before = replay(earlier, capacity);
        let after = replay(history, capacity);
        let now = history.len() - 1;
        lemma_replay_is_ordered_by_last_use(earlier, capacity);
        assert forall|key: K| #[trigger] last_use(history, key) == (if uses(access, key) {
            now
        } else {
            last_use(earlier, key)
        }) && last_use(earlier, key) < now by {
            lemma_last_use_in_range(earlier, key);
        }
        match access {
            Access::Push(key, value) => {
                lemma_pushed(before, capacity, key, value);
                let kept = if has_key(before, key) {
                    removed(before, key)
                } else if before.len() == capacity {
                    before.drop_first()
                } else {
                    before
                };
                let gone = if has_key(before, key) {
                    position(before, key)
                } else if before.len() == capacity {
                    0
                } else {
                    before.len() as int
                };
                assert(after == kept.push((key, value)));
                assert forall|i: int| 0 <= i < kept.len() implies #[trigger] kept[i] == before[if i
                    < gone {
                    i
                } else {
                    i + 1
                }] && kept[i].0 != key by {
                    let from = if i < gone {
                        i
                    } else {
                        i + 1
                    };
                    assert(kept[i] == before[from]);
                    if has_key(before, key) {
                        assert(before[from].0 != before[gone].0);
                    }
                }
                lemma_moved_to_end_is_ordered(before, kept, gone, (key, value), history);
            },
            Access::Lookup(key) => {
                lemma_refreshed(before, capacity, key);
                if has_key(before, key) {
                    let gone = position(before, key);
                    let kept = before.remove(gone);
                    assert forall|i: int| 0 <= i < kept.len() implies #[trigger] kept[i]
                        == before[if i < gone {
                        i
                    } else {
                        i + 1
                    }] && kept[i].0 != key by {
                        let from = if i < gone {
                            i
                        } else {
                            i + 1
                        };
                        assert(kept[i] == before[from]);
                        assert(before[from].0 != before[gone].0);
                    }
                    lemma_moved_to_end_is_ordered(before, kept, gone, before[gone], history);
                } else {
                    assert forall|i: int| 0 <= i < before.len() implies (#[trigger] before[i]).0
                        != key by {}
                }
            },
            Access::Remove(key) => {
                lemma_removed(before, capacity, key);
                if has_key(before, key) {
                    let gone = position(before, key);
                    assert forall|i: int| 0 <= i < after.len() implies #[trigger] after[i]
                        == before[if i < gone {
                        i
                    } else {
                        i + 1
                    }] by {}
                }
            },
        }
    }
}

/// Where the entries `kept` are those of `before` but the one at `gone`, in
/// their order, none of them with the key of `latest`, and the history ends
/// with a use of that key, then `kept` followed by `latest` is ordered by
/// last use.
proof fn lemma_moved_to_end_is_ordered<K, V>(
    before: Seq<(K, V)>,
    kept: Seq<(K, V)>,
    gone: int,
    latest: (K, V),
    history: Seq<Access<K, V>>,
)
    requires
        history.len() > 0,
        uses(history.last(), latest.0),
        ordered_by_last_use(before, history.drop_last()),
        0 <= gone,
        kept.len() <= before.len(),
        forall|i: int|
            0 <= i < kept.len() ==> (if i < gone {
                i
            } else {
                i + 1
            }) < before.len() && #[trigger] kept[i] == before[if i < gone {
                i
            } else {
                i + 1
            }] && kept[i].0 != latest.0,
    ensures
        ordered_by_last_use(kept.push(latest), history),
{
    let after = kept.push(latest);
    let earlier = history.drop_last();
    let now = history.len() - 1;
    assert forall|i: int| 0 <= i < after.len() implies 0 <= last_use(
        history,
        (#[trigger] after[i]).0,
    ) by {
        if i < kept.len() {
            assert(after[i] == kept[i]);
            let from = if i < gone {
                i
            } else {
                i + 1
            };
            assert(kept[i] == before[from]);
            assert(0 <= last_use(earlier, before[from].0));
        }
    }
    assert forall|i: int, j: int| 0 <= i < j < after.len() implies last_use(
        history,
        (#[trigger] after[i]).0,
    ) < last_use(history, (#[trigger] after[j]).0) by {
        let a = if i < gone {
            i
        } else {
            i + 1
        };
        assert(after[i] == kept[i]);
        assert(kept[i] == before[a]);
        lemma_last_use_in_range(earlier, before[a].0);
        if j < kept.len() {
            let b = if j < gone {
                j
            } else {
                j + 1
            };
            assert(after[j] == kept[j]);
            assert(kept[j] == before[b]);
            assert(last_use(earlier, before[a].0) < last_use(earlier, before[b].0));
        } else {
            assert(last_use(history, latest.0) == now);
        }
    }
}

/// The entry that a push evicts from a full map is the one that was used
/// longest ago: every entry that stays was last used after it.
pub proof fn lemma_evicted_was_used_longest_ago<K, V>(
    history: Seq<Access<K, V>>,
    capacity: nat,
    key: K,
)
    requires
        capacity > 0,
        !has_key(replay(history, capacity), key),
        replay(history, capacity).len() == capacity,
    ensures
        displaced(replay(history, capacity), capacity, key) == Some(replay(history, capacity)[0]),
        forall|i: int|
            0 < i < replay(history, capacity).len() ==> last_use(
                history,
                replay(history, capacity)[0].0,
            ) < last_use(history, (#[trigger] replay(history, capacity)[i]).0),
{
    lemma_replay_is_ordered_by_last_use(history, capacity);
}

} // verus!
