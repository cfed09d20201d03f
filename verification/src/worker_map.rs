//! The bounded map of workers together with the record of how it was used.
//! The record exists only in proofs: it is what ties the order of the entries
//! to the times at which their peers were last used.

use lru::LruCache;
use vstd::prelude::*;

use crate::history::{lemma_replay_is_ordered_by_last_use, lemma_replay_step, replay, Access};
use crate::recency::{
    displaced, has_key, lemma_drop_least_recent, pushed, refreshed, removed, value_of,
};
use crate::store::{
    lru_capacity, lru_contains, lru_entries, lru_get, lru_new, lru_pop, lru_pop_lru, lru_push,
    MAX_CAPACITY,
};
use crate::worker::{PeerKey, WorkerInfo};

verus! {

/// The map of the `lru` crate and, beside it, every use that was made of it.
pub(crate) struct WorkerMap {
    workers: LruCache<PeerKey, WorkerInfo>,
    accesses: Ghost<Seq<Access<PeerKey, WorkerInfo>>>,
}

impl WorkerMap {
    /// The entries, the least recently used one first.
    pub(crate) closed spec fn entries(&self) -> Seq<(PeerKey, WorkerInfo)> {
        lru_entries(self.workers)
    }

    /// The number of entries that the map holds at most.
    pub(crate) closed spec fn capacity(&self) -> nat {
        lru_capacity(self.workers)
    }

    /// Every use of the map so far, the earliest first.
    pub(crate) closed spec fn history(&self) -> Seq<Access<PeerKey, WorkerInfo>> {
        self.accesses@
    }

    /// The map can hold something, and holds what its uses have left in it.
    pub(crate) open spec fn valid(&self) -> bool {
        &&& self.capacity() > 0
        &&& self.entries() == replay(self.history(), self.capacity())
    }

    /// An empty map that was never used.
    pub(crate) fn new(capacity: usize) -> (map: Self)
        requires
            0 < capacity <= MAX_CAPACITY,
        ensures
            map.valid(),
            map.capacity() == capacity,
            map.history() == Seq::<Access<PeerKey, WorkerInfo>>::empty(),
            map.entries() == Seq::<(PeerKey, WorkerInfo)>::empty(),
    {
        WorkerMap { workers: lru_new(capacity), accesses: Ghost(Seq::empty()) }
    }

    /// Whether the key is present; this is no use of the key.
    pub(crate) fn contains(&self, key: &PeerKey) -> (present: bool)
        ensures
            present == has_key(self.entries(), *key),
    {
        lru_contains(&self.workers, key)
    }

    /// Pushes the value for the key and records the push.
    pub(crate) fn push(&mut self, key: PeerKey, value: WorkerInfo) -> (left: Option<
        (PeerKey, WorkerInfo),
    >)
        requires
            old(self).valid(),
        ensures
            final(self).valid(),
            final(self).capacity() == old(self).capacity(),
            final(self).history() == old(self).history().push(Access::Push(key, value)),
            final(self).entries() == pushed(old(self).entries(), old(self).capacity(), key, value),
            left == displaced(old(self).entries(), old(self).capacity(), key),
        no_unwind
    {
        proof {
            lemma_replay_step(self.history(), self.capacity(), Access::Push(key, value));
        }
        self.accesses = Ghost(self.accesses@.push(Access::Push(key, value)));
        lru_push(&mut self.workers, key, value)
    }

    /// Looks the key up and records the look-up.
    pub(crate) fn get(&mut self, key: &PeerKey) -> (found: Option<&WorkerInfo>)
        requires
            old(self).valid(),
        ensures
            final(self).valid(),
            final(self).capacity() == old(self).capacity(),
            final(self).history() == old(self).history().push(Access::Lookup(*key)),
            final(self).entries() == refreshed(old(self).entries(), *key),
            has_key(old(self).entries(), *key) ==> found == Some(
                &value_of(old(self).entries(), *key),
            ),
            !has_key(old(self).entries(), *key) ==> found is None,
        no_unwind
    {
        proof {
            lemma_replay_step(self.history(), self.capacity(), Access::Lookup(*key));
        }
        self.accesses = Ghost(self.accesses@.push(Access::Lookup(*key)));
        lru_get(&mut self.workers, key)
    }

    /// Takes the entry of the key out and records the removal.
    pub(crate) fn pop(&mut self, key: &PeerKey) -> (left: Option<WorkerInfo>)
        requires
            old(self).valid(),
        ensures
            final(self).valid(),
            final(self).capacity() == old(self).capacity(),
            final(self).history() == old(self).history().push(Access::Remove(*key)),
            final(self).entries() == removed(old(self).entries(), *key),
            has_key(old(self).entries(), *key) ==> left == Some(
                value_of(old(self).entries(), *key),
            ),
            !has_key(old(self).entries(), *key) ==> left is None,
        no_unwind
    {
        proof {
            lemma_replay_step(self.history(), self.capacity(), Access::Remove(*key));
        }
        self.accesses = Ghost(self.accesses@.push(Access::Remove(*key)));
        lru_pop(&mut self.workers, key)
    }

    /// Takes the least recently used entry out; in the record this is the
    /// removal of its key. An empty map stays as it is.
    pub(crate) fn pop_lru(&mut self) -> (left: Option<(PeerKey, WorkerInfo)>)
        requires
            old(self).valid(),
        ensures
            final(self).valid(),
            final(self).capacity() == old(self).capacity(),
            old(self).entries().len() > 0 ==> {
                &&& left == Some(old(self).entries()[0])
                &&& final(self).entries() == old(self).entries().drop_first()
                &&& final(self).history() == old(self).history().push(
                    Access::Remove(old(self).entries()[0].0),
                )
            },
            old(self).entries().len() == 0 ==> {
                &&& left is None
                &&& final(self).entries() == old(self).entries()
                &&& final(self).history() == old(self).history()
            },
        no_unwind
    {
        proof {
            if self.entries().len() > 0 {
                let oldest = self.entries()[0].0;
                lemma_replay_is_ordered_by_last_use(self.history(), self.capacity());
                lemma_drop_least_recent(self.entries(), self.capacity());
                lemma_replay_step(self.history(), self.capacity(), Access::Remove(oldest));
            }
        }
        let ghost before = self.entries();
        let left = lru_pop_lru(&mut self.workers);
        proof {
            if before.len() > 0 {
                self.accesses@ = self.accesses@.push(Access::Remove(before[0].0));
            }
        }
        left
    }
}

} // verus!
