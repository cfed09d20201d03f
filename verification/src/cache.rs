//! The cache of workers: a bounded map from peers to workers that evicts the
//! least recently used worker, delivers batches, and shuts down for good.

use tokio_util::sync::CancellationToken;
use vstd::prelude::*;

use crate::batch::TransactionBatch;
use crate::error::WorkersCacheError;
use crate::history::{
    last_use, lemma_replay_is_ordered_by_last_use, ordered_by_last_use, replay, Access,
};
use crate::recency::{
    bounded, displaced, has_key, lemma_pushed, lemma_refresh_then_remove, lemma_refreshed,
    lemma_removed, pushed, refreshed, removed, value_of,
};
use crate::store::MAX_CAPACITY;
use crate::worker::{PeerKey, ShutdownWorker, WorkerInfo};
use crate::worker_map::WorkerMap;

verus! {

/// The entry that an optional leaving worker stands for.
pub open spec fn leaving_entry(leaving: Option<ShutdownWorker>) -> Option<(PeerKey, WorkerInfo)> {
    match leaving {
        Some(worker) => Some(worker@),
        None => None,
    }
}

/// The live workers, at most one per peer and at most as many as the
/// capacity, ordered by recency of use. Once the cache has been shut down, or
/// has seen its cancellation token cancelled, it delivers nothing any more.
pub struct WorkersCache {
    workers: WorkerMap,
    /// Cancelled when the cache is shut down; interrupts sends that wait.
    cancel: CancellationToken,
    /// Whether this cache was shut down or has seen `cancel` cancelled.
    shut_down: bool,
}

impl WorkersCache {
    #[verifier::type_invariant]
    spec fn well_formed(self) -> bool {
        self.workers.valid()
    }

    /// The entries of the cache, the least recently used one first and the
    /// most recently used one last.
    pub closed spec fn entries(&self) -> Seq<(PeerKey, WorkerInfo)> {
        self.workers.entries()
    }

    /// The number of workers that the cache holds at most.
    pub closed spec fn capacity(&self) -> nat {
        self.workers.capacity()
    }

    /// Every use of the cache's entries so far, the earliest first: the
    /// pushes, the look-ups that deliveries made, and the removals.
    pub closed spec fn history(&self) -> Seq<Access<PeerKey, WorkerInfo>> {
        self.workers.history()
    }

    /// Whether the cache was shut down, or has seen its token cancelled.
    pub closed spec fn is_shut_down(&self) -> bool {
        self.shut_down
    }

    /// The cancellation token of the cache.
    pub closed spec fn token(&self) -> CancellationToken {
        self.cancel
    }

    /// Whether the cache holds a worker for the peer.
    pub open spec fn has(&self, peer: PeerKey) -> bool {
        has_key(self.entries(), peer)
    }

    /// What holds of every cache at all times: it holds what its uses have
    /// left in it, which is at most as many workers as its capacity and no
    /// peer twice, in the order in which the peers were last used.
    pub open spec fn valid(&self) -> bool {
        &&& self.capacity() > 0
        &&& self.entries() == replay(self.history(), self.capacity())
        &&& bounded(self.entries(), self.capacity())
        &&& ordered_by_last_use(self.entries(), self.history())
    }

    /// The capacity and the token are those of `before`.
    pub open spec fn same_setting(&self, before: &WorkersCache) -> bool {
        &&& self.capacity() == before.capacity()
        &&& self.token() == before.token()
    }

    /// The capacity, the token and the entries with their history are those
    /// of `before`.
    pub open spec fn same_workers(&self, before: &WorkersCache) -> bool {
        &&& self.same_setting(before)
        &&& self.entries() == before.entries()
        &&& self.history() == before.history()
    }

    /// Shows that a cache that meets its type's invariant is `valid`.
    proof fn lemma_valid(&self)
        requires
            self.workers.valid(),
        ensures
            self.valid(),
    {
        lemma_replay_is_ordered_by_last_use(self.history(), self.capacity());
    }

    /// An empty cache for at most `capacity` workers, which shuts down with
    /// the given token.
    pub fn new(capacity: usize, cancel: CancellationToken) -> (cache: Self)
        requires
            0 < capacity <= MAX_CAPACITY,
        ensures
            cache.valid(),
            cache.entries() == Seq::<(PeerKey, WorkerInfo)>::empty(),
            cache.history() == Seq::<Access<PeerKey, WorkerInfo>>::empty(),
            cache.capacity() == capacity,
            cache.token() == cancel,
            !cache.is_shut_down(),
    {
        let cache = WorkersCache { workers: WorkerMap::new(capacity), cancel, shut_down: false };
        proof {
            cache.lemma_valid();
        }
        cache
    }

    /// Whether the cache holds a worker for the peer. The order of the
    /// entries is not touched, and the check is no use of the peer.
    pub fn contains(&self, peer: &PeerKey) -> (present: bool)
        ensures
            present == self.has(*peer),
            self.valid(),
    {
        proof {
            use_type_invariant(self);
            self.lemma_valid();
        }
        self.workers.contains(peer)
    }

    /// Stores the worker for the peer as the most recently used entry. The
    /// entry that leaves on that account is handed back for the caller to
    /// stop: the worker that the peer had before, or else, where the cache
    /// was full, the entry that was used longest ago. The cache never holds
    /// more than its capacity.
    pub fn push(&mut self, leader: PeerKey, peer_worker: WorkerInfo) -> (evicted: Option<
        ShutdownWorker,
    >)
        ensures
            final(self).valid(),
            final(self).same_setting(old(self)),
            final(self).is_shut_down() == old(self).is_shut_down(),
            final(self).history() == old(self).history().push(Access::Push(leader, peer_worker)),
            final(self).entries() == pushed(
                old(self).entries(),
                old(self).capacity(),
                leader,
                peer_worker,
            ),
            final(self).has(leader),
            leaving_entry(evicted) == displaced(old(self).entries(), old(self).capacity(), leader),
            evicted is Some <==> old(self).has(leader) || old(self).entries().len() == old(
                self
            ).capacity(),
            evicted matches Some(leaving) ==> old(self).has(leader) || forall|i: int|
                0 <= i < old(self).entries().len() && (#[trigger] old(self).entries()[i]).0
                    != leaving@.0 ==> last_use(old(self).history(), leaving@.0) < last_use(
                    old(self).history(),
                    old(self).entries()[i].0,
                ),
    {
        proof {
            use_type_invariant(&*self);
            self.lemma_valid();
            lemma_pushed(self.entries(), self.capacity(), leader, peer_worker);
        }
        let evicted = match self.workers.push(leader, peer_worker) {
            Some((leader, popped_worker)) => Some(ShutdownWorker::new(leader, popped_worker)),
            None => None,
        };
        proof {
            use_type_invariant(&*self);
            self.lemma_valid();
        }
        evicted
    }

    /// Takes the worker of the peer out of the cache, wherever it stands in
    /// the order of use, and hands it back for the caller to stop.
    pub fn pop(&mut self, leader: PeerKey) -> (popped: Option<ShutdownWorker>)
        ensures
            final(self).valid(),
            final(self).same_setting(old(self)),
            final(self).is_shut_down() == old(self).is_shut_down(),
            final(self).history() == old(self).history().push(Access::Remove(leader)),
            final(self).entries() == removed(old(self).entries(), leader),
            !final(self).has(leader),
            old(self).has(leader) ==> leaving_entry(popped) == Some(
                (leader, value_of(old(self).entries(), leader)),
            ),
            !old(self).has(leader) ==> popped is None,
    {
        proof {
            use_type_invariant(&*self);
            self.lemma_valid();
            lemma_removed(self.entries(), self.capacity(), leader);
        }
        let popped = match self.workers.pop(&leader) {
            Some(popped_worker) => Some(ShutdownWorker::new(leader, popped_worker)),
            None => None,
        };
        proof {
            use_type_invariant(&*self);
            self.lemma_valid();
        }
        popped
    }

    /// Takes note of what the token answered when it was asked whether it is
    /// cancelled: a cache that was shut down, or whose token is cancelled,
    /// delivers nothing any more, and remembers so. The answer tells whether
    /// that is the case now. No entry is touched.
    pub fn note_cancellation(&mut self, cancelled: bool) -> (shut_down: bool)
        ensures
            shut_down == (old(self).is_shut_down() || cancelled),
            final(self).is_shut_down() == shut_down,
            final(self).same_workers(old(self)),
            final(self).valid(),
    {
        proof {
            use_type_invariant(&*self);
            self.lemma_valid();
        }
        if cancelled {
            self.shut_down = true;
        }
        self.shut_down
    }

    /// Whether the cache delivers nothing any more: it was shut down, or its
    /// token is seen cancelled now. A cancellation that is seen is
    /// remembered, so the answer never goes back from `true` to `false`.
    /// What the answer is for each answer of the token, `note_cancellation`
    /// says.
    pub fn check_shutdown(&mut self) -> (shut_down: bool)
        ensures
            shut_down == final(self).is_shut_down(),
            old(self).is_shut_down() ==> shut_down,
            final(self).same_workers(old(self)),
            final(self).valid(),
    {
        let cancelled = self.cancel.is_cancelled();
        self.note_cancellation(cancelled)
    }

    /// The cancellation token of the cache, against which a send that waits
    /// is raced.
    pub fn cancellation(&self) -> (token: &CancellationToken)
        ensures
            *token == self.token(),
    {
        &self.cancel
    }

    /// The first half of a delivery, given what the token answered when it
    /// was asked whether it is cancelled. Where the cache was shut down or
    /// the token is cancelled, the call fails with `ShutdownError` and
    /// touches no entry, whether or not the peer has a worker. Else the
    /// worker of the peer is looked up, which makes it the most recently used
    /// one, and handed out for the send.
    ///
    /// The caller has made sure with `contains` that the peer has a worker,
    /// unless the cache delivers nothing any more.
    pub fn begin_send_with(&mut self, peer: &PeerKey, cancelled: bool) -> (found: Result<
        &WorkerInfo,
        WorkersCacheError,
    >)
        requires
            old(self).is_shut_down() || cancelled || old(self).has(*peer),
        ensures
            final(self).valid(),
            final(self).same_setting(old(self)),
            final(self).is_shut_down() == (old(self).is_shut_down() || cancelled),
            found is Err <==> old(self).is_shut_down() || cancelled,
            found matches Err(error) ==> {
                &&& error == WorkersCacheError::ShutdownError
                &&& final(self).same_workers(old(self))
            },
            found matches Ok(worker) ==> {
                &&& old(self).has(*peer)
                &&& *worker == value_of(old(self).entries(), *peer)
                &&& final(self).entries() == refreshed(old(self).entries(), *peer)
                &&& final(self).history() == old(self).history().push(Access::Lookup(*peer))
                &&& final(self).has(*peer)
            },
    {
        proof {
            use_type_invariant(&*self);
            self.lemma_valid();
            lemma_refreshed(self.entries(), self.capacity(), *peer);
        }
        if self.note_cancellation(cancelled) {
            return Err(WorkersCacheError::ShutdownError);
        }
        let found = self.workers.get(peer);
        proof {
            lemma_replay_is_ordered_by_last_use(
                old(self).history().push(Access::Lookup(*peer)),
                old(self).capacity(),
            );
        }
        Ok(found.unwrap())
    }

    /// The first half of a delivery: asks the token whether it is cancelled
    /// and goes on as `begin_send_with` says for its answer. Whatever the
    /// token answers, a cache that was shut down fails with `ShutdownError`,
    /// a call that fails touches no entry, and a call that succeeds hands
    /// out the worker of the peer and makes it the most recently used one.
    ///
    /// The caller has made sure with `contains` that the peer has a worker,
    /// unless the cache is shut down.
    pub fn begin_send(&mut self, peer: &PeerKey) -> (found: Result<&WorkerInfo, WorkersCacheError>)
        requires
            old(self).is_shut_down() || old(self).has(*peer),
        ensures
            final(self).valid(),
            final(self).same_setting(old(self)),
            old(self).is_shut_down() ==> final(self).is_shut_down(),
            found is Err <==> final(self).is_shut_down(),
            found matches Err(error) ==> {
                &&& error == WorkersCacheError::ShutdownError
                &&& final(self).same_workers(old(self))
            },
            found matches Ok(worker) ==> {
                &&& old(self).has(*peer)
                &&& *worker == value_of(old(self).entries(), *peer)
                &&& final(self).entries() == refreshed(old(self).entries(), *peer)
                &&& final(self).history() == old(self).history().push(Access::Lookup(*peer))
                &&& final(self).has(*peer)
            },
    {
        let cancelled = self.cancel.is_cancelled();
        self.begin_send_with(peer, cancelled)
    }

    /// The second half of a delivery: where the send found the receiver
    /// dropped, the worker of the peer is dead; its entry leaves the cache and
    /// is handed back for the caller to stop. After any other outcome the
    /// cache stays as it is: a full channel is no dead worker.
    pub fn prune_dropped(&mut self, peer: &PeerKey, sent: Result<(), WorkersCacheError>) -> (pruned:
        Option<ShutdownWorker>)
        ensures
            final(self).valid(),
            final(self).same_setting(old(self)),
            final(self).is_shut_down() == old(self).is_shut_down(),
            (sent matches Err(WorkersCacheError::ReceiverDropped)) ==> {
                &&& final(self).entries() == removed(old(self).entries(), *peer)
                &&& final(self).history() == old(self).history().push(Access::Remove(*peer))
                &&& !final(self).has(*peer)
                &&& old(self).has(*peer) ==> leaving_entry(pruned) == Some(
                    (*peer, value_of(old(self).entries(), *peer)),
                )
                &&& !old(self).has(*peer) ==> pruned is None
            },
            !(sent matches Err(WorkersCacheError::ReceiverDropped)) ==> {
                &&& final(self).same_workers(old(self))
                &&& pruned is None
            },
    {
        proof {
            use_type_invariant(&*self);
            self.lemma_valid();
        }
        match sent {
            Err(WorkersCacheError::ReceiverDropped) => self.pop(*peer),
            _ => None,
        }
    }

    /// The end of a delivery that waited for room in the channel and was
    /// raced against the cancellation of the cache. `delivered` is `None`
    /// where the cancellation won: the call then fails with `ShutdownError`
    /// whatever became of the send, the cache remembers that it is shut
    /// down, and no entry is touched. Otherwise `delivered` tells whether the
    /// channel took the batch; if it did not, the receiver is gone, the call
    /// fails with `ReceiverDropped`, and the worker of the peer leaves the
    /// cache and is handed back, beside the result, for the caller to stop.
    pub fn finish_send(&mut self, peer: &PeerKey, delivered: Option<bool>) -> (outcome: (
        Result<(), WorkersCacheError>,
        Option<ShutdownWorker>,
    ))
        ensures
            final(self).valid(),
            final(self).same_setting(old(self)),
            delivered is None ==> {
                &&& outcome.0 matches Err(WorkersCacheError::ShutdownError)
                &&& outcome.1 is None
                &&& final(self).is_shut_down()
                &&& final(self).same_workers(old(self))
            },
            delivered is Some ==> final(self).is_shut_down() == old(self).is_shut_down(),
            delivered == Some(true) ==> {
                &&& outcome.0 is Ok
                &&& outcome.1 is None
                &&& final(self).same_workers(old(self))
            },
            delivered == Some(false) ==> {
                &&& outcome.0 matches Err(WorkersCacheError::ReceiverDropped)
                &&& final(self).entries() == removed(old(self).entries(), *peer)
                &&& final(self).history() == old(self).history().push(Access::Remove(*peer))
                &&& !final(self).has(*peer)
                &&& old(self).has(*peer) ==> leaving_entry(outcome.1) == Some(
                    (*peer, value_of(old(self).entries(), *peer)),
                )
                &&& !old(self).has(*peer) ==> outcome.1 is None
            },
    {
        proof {
            use_type_invariant(&*self);
            self.lemma_valid();
        }
        match delivered {
            None => {
                self.shut_down = true;
                (Err(WorkersCacheError::ShutdownError), None)
            },
            Some(delivered) => {
                let send_res = WorkersCacheError::from_send(delivered);
                let pruned = self.prune_dropped(peer, send_res);
                (send_res, pruned)
            },
        }
    }

    /// The non-blocking delivery, given what the token answered when it was
    /// asked whether it is cancelled.
    ///
    /// Where the cache was shut down or the token is cancelled, the call
    /// fails with `ShutdownError` and touches no entry, whether or not the
    /// peer has a worker; nothing is offered to any channel. Otherwise the
    /// worker of the peer becomes the most recently used one and the batch is
    /// offered to its channel, without ever waiting. A full channel is
    /// reported as `FullChannel` and the worker stays. A dropped receiver is
    /// reported as `ReceiverDropped`; the worker then leaves the cache and is
    /// handed back, beside the result, for the caller to stop.
    ///
    /// The caller has made sure with `contains` that the peer has a worker,
    /// unless the cache delivers nothing any more.
    pub fn try_send_transactions_with(
        &mut self,
        peer: &PeerKey,
        txs_batch: TransactionBatch,
        cancelled: bool,
    ) -> (outcome: (Result<(), WorkersCacheError>, Option<ShutdownWorker>))
        requires
            old(self).is_shut_down() || cancelled || old(self).has(*peer),
        ensures
            final(self).valid(),
            final(self).same_setting(old(self)),
            final(self).is_shut_down() == (old(self).is_shut_down() || cancelled),
            (outcome.0 matches Err(WorkersCacheError::ShutdownError)) <==> old(
                self
            ).is_shut_down() || cancelled,
            !(outcome.0 matches Err(WorkersCacheError::TaskJoinFailure)),
            final(self).is_shut_down() ==> final(self).same_workers(old(self)) && outcome.1
                is None,
            (outcome.0 matches Err(WorkersCacheError::ReceiverDropped)) ==> {
                &&& final(self).entries() == removed(old(self).entries(), *peer)
                &&& final(self).history() == old(self).history().push(Access::Lookup(*peer)).push(
                    Access::Remove(*peer),
                )
                &&& !final(self).has(*peer)
                &&& leaving_entry(outcome.1) == Some((*peer, value_of(old(self).entries(), *peer)))
            },
            (outcome.0 is Ok || outcome.0 matches Err(WorkersCacheError::FullChannel)) ==> {
                &&& final(self).entries() == refreshed(old(self).entries(), *peer)
                &&& final(self).history() == old(self).history().push(Access::Lookup(*peer))
                &&& final(self).has(*peer)
                &&& outcome.1 is None
            },
    {
        proof {
            use_type_invariant(&*self);
            self.lemma_valid();
            lemma_refresh_then_remove(self.entries(), self.capacity(), *peer);
        }
        let send_res = match self.begin_send_with(peer, cancelled) {
            Err(error) => {
                return (Err(error), None);
            },
            Ok(current_worker) => current_worker.try_send_transactions(txs_batch),
        };
        let pruned = self.prune_dropped(peer, send_res);
        (send_res, pruned)
    }

    /// Tries to hand the batch to the worker of the peer at once, without
    /// ever waiting: asks the token whether it is cancelled and goes on as
    /// `try_send_transactions_with` says for its answer.
    ///
    /// Whatever the token and the channel answer: a cache that was shut down
    /// fails with `ShutdownError`; a call that fails so touches no entry,
    /// whether or not the peer has a worker; after `Ok` and after
    /// `FullChannel` the worker of the peer is the most recently used one and
    /// stays; after `ReceiverDropped` it has left the cache and is handed
    /// back, beside the result, for the caller to stop.
    ///
    /// The caller has made sure with `contains` that the peer has a worker,
    /// unless the cache is shut down.
    pub fn try_send_transactions_to_address(
        &mut self,
        peer: &PeerKey,
        txs_batch: TransactionBatch,
    ) -> (outcome: (Result<(), WorkersCacheError>, Option<ShutdownWorker>))
        requires
            old(self).is_shut_down() || old(self).has(*peer),
        ensures
            final(self).valid(),
            final(self).same_setting(old(self)),
            old(self).is_shut_down() ==> final(self).is_shut_down(),
            (outcome.0 matches Err(WorkersCacheError::ShutdownError)) <==> final(
                self
            ).is_shut_down(),
            !(outcome.0 matches Err(WorkersCacheError::TaskJoinFailure)),
            final(self).is_shut_down() ==> final(self).same_workers(old(self)) && outcome.1
                is None,
            !final(self).is_shut_down() ==> old(self).has(*peer),
            (outcome.0 matches Err(WorkersCacheError::ReceiverDropped)) ==> {
                &&& final(self).entries() == removed(old(self).entries(), *peer)
                &&& final(self).history() == old(self).history().push(Access::Lookup(*peer)).push(
                    Access::Remove(*peer),
                )
                &&& !final(self).has(*peer)
                &&& leaving_entry(outcome.1) == Some((*peer, value_of(old(self).entries(), *peer)))
            },
            (outcome.0 is Ok || outcome.0 matches Err(WorkersCacheError::FullChannel)) ==> {
                &&& final(self).entries() == refreshed(old(self).entries(), *peer)
                &&& final(self).history() == old(self).history().push(Access::Lookup(*peer))
                &&& final(self).has(*peer)
                &&& outcome.1 is None
            },
    {
        let cancelled = self.cancel.is_cancelled();
        self.try_send_transactions_with(peer, txs_batch, cancelled)
    }

    /// One step of the shutdown: from now on the cache delivers nothing, its
    /// token is cancelled, which interrupts the sends that wait, and the
    /// least recently used worker, if there is one, leaves the cache and is
    /// handed back for the caller to stop. `None` tells that the cache is
    /// empty.
    pub fn shutdown_next(&mut self) -> (leaving: Option<ShutdownWorker>)
        ensures
            final(self).valid(),
            final(self).same_setting(old(self)),
            final(self).is_shut_down(),
            old(self).entries().len() > 0 ==> {
                &&& leaving_entry(leaving) == Some(old(self).entries()[0])
                &&& final(self).entries() == old(self).entries().drop_first()
                &&& final(self).history() == old(self).history().push(
                    Access::Remove(old(self).entries()[0].0),
                )
            },
            old(self).entries().len() == 0 ==> {
                &&& leaving is None
                &&& final(self).same_workers(old(self))
            },
    {
        proof {
            use_type_invariant(&*self);
        }
        self.shut_down = true;
        self.cancel.cancel();
        let leaving = match self.workers.pop_lru() {
            Some((leader, worker)) => Some(ShutdownWorker::new(leader, worker)),
            None => None,
        };
        proof {
            use_type_invariant(&*self);
            self.lemma_valid();
        }
        leaving
    }

    /// Shuts the cache down for good, step by step as `shutdown_next` does:
    /// from now on it delivers nothing, its token is cancelled, and every
    /// worker leaves the cache. The workers are handed back in the order in
    /// which the cache would have evicted them, the least recently used one
    /// first, for the caller to stop them one after the other.
    pub fn shutdown(&mut self) -> (leaving: Vec<ShutdownWorker>)
        ensures
            final(self).valid(),
            final(self).same_setting(old(self)),
            final(self).is_shut_down(),
            final(self).entries() == Seq::<(PeerKey, WorkerInfo)>::empty(),
            leaving@.len() == old(self).entries().len(),
            forall|i: int|
                0 <= i < leaving@.len() ==> (#[trigger] leaving@[i])@ == old(self).entries()[i],
            forall|peer: PeerKey| !final(self).has(peer),
    {
        let mut leaving: Vec<ShutdownWorker> = Vec::new();
        loop
            invariant
                self.same_setting(old(self)),
                leaving@.len() + self.entries().len() == old(self).entries().len(),
                self.entries() == old(self).entries().skip(leaving@.len() as int),
                forall|i: int|
                    0 <= i < leaving@.len() ==> (#[trigger] leaving@[i])@ == old(self).entries()[i],
            ensures
                self.valid(),
                self.is_shut_down(),
                self.entries().len() == 0,
            decreases self.entries().len(),
        {
            match self.shutdown_next() {
                Some(worker) => {
                    leaving.push(worker);
                },
                None => {
                    break ;
                },
            }
        }
        leaving
    }
}

} // verus!
