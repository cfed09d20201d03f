//! A worker as the cache holds it, and a worker on its way out.

use tokio::sync::mpsc::Sender;
use tokio::task::JoinHandle;
use tokio_util::sync::CancellationToken;
use vstd::prelude::*;

use crate::batch::TransactionBatch;
use crate::error::WorkersCacheError;
use crate::runtime::channel_try_send;

verus! {

/// The address of a peer as plain integers: the address family (4 or 6), the
/// bits of the IP address, the port, and the flow information and scope
/// identifier of an IPv6 address (zero otherwise). Two keys are the same peer
/// exactly when all five parts agree.
pub type PeerKey = (u8, u128, u16, u32, u32);

/// One live worker: the sending half of the channel on which it takes
/// batches, the handle of the task that drives it, and the token that tells
/// this one worker to stop.
pub struct WorkerInfo {
    sender: Sender<TransactionBatch>,
    handle: JoinHandle<()>,
    cancel: CancellationToken,
}

impl WorkerInfo {
    /// The sending half of the worker's channel.
    pub closed spec fn channel(&self) -> Sender<TransactionBatch> {
        self.sender
    }

    /// The handle of the worker's task.
    pub closed spec fn task(&self) -> JoinHandle<()> {
        self.handle
    }

    /// The worker's own cancellation token.
    pub closed spec fn token(&self) -> CancellationToken {
        self.cancel
    }

    /// Bundles the three parts of a running worker.
    pub fn new(
        sender: Sender<TransactionBatch>,
        handle: JoinHandle<()>,
        cancel: CancellationToken,
    ) -> (worker: Self)
        ensures
            worker.channel() == sender,
            worker.task() == handle,
            worker.token() == cancel,
    {
        WorkerInfo { sender, handle, cancel }
    }

    /// Tries to enqueue the batch at once. Whatever the channel answers, the
    /// only failures are a full channel and a dropped receiver.
    pub fn try_send_transactions(&self, txs_batch: TransactionBatch) -> (sent: Result<
        (),
        WorkersCacheError,
    >)
        ensures
            sent matches Err(error) ==> error == WorkersCacheError::FullChannel || error
                == WorkersCacheError::ReceiverDropped,
    {
        WorkersCacheError::from_try_send(channel_try_send(&self.sender, txs_batch))
    }

    /// The sending half of the channel, for a send that waits for room.
    pub fn sender(&self) -> (sender: &Sender<TransactionBatch>)
        ensures
            *sender == self.channel(),
    {
        &self.sender
    }

    /// Tells the worker to stop: cancels its token, then lets go of the
    /// sending half, so that the worker sees its channel close. The worker
    /// has finished once the returned handle resolves.
    pub fn shutdown(self) -> (handle: JoinHandle<()>)
        ensures
            handle == self.task(),
    {
        let WorkerInfo { sender, handle, cancel } = self;
        cancel.cancel();
        drop(sender);
        handle
    }
}

/// A worker that has left the cache, together with the peer it served.
/// Stopping it is left to the caller, so that the cache never waits for a
/// worker to finish.
pub struct ShutdownWorker {
    leader: PeerKey,
    worker: WorkerInfo,
}

impl ShutdownWorker {
    /// The entry that left the cache: the peer and the worker that served it.
    pub closed spec fn view(&self) -> (PeerKey, WorkerInfo) {
        (self.leader, self.worker)
    }

    /// Pairs a worker that left the cache with its peer.
    pub(crate) fn new(leader: PeerKey, worker: WorkerInfo) -> (leaving: Self)
        ensures
            leaving@ == (leader, worker),
    {
        ShutdownWorker { leader, worker }
    }

    /// The peer that the worker served.
    pub fn leader(&self) -> (leader: PeerKey)
        ensures
            leader == self@.0,
    {
        self.leader
    }

    /// Tells the worker to stop, as `WorkerInfo::shutdown` does.
    pub fn shutdown(self) -> (handle: JoinHandle<()>)
        ensures
            handle == self@.1.task(),
    {
        self.worker.shutdown()
    }
}

/// Starts the shutdown of a worker that left the cache, if there is one:
/// the worker is told to stop, and its peer and the handle of its task are
/// handed back so that the end of the task can be awaited elsewhere.
pub fn maybe_shutdown_worker(worker: Option<ShutdownWorker>) -> (stopping: Option<
    (PeerKey, JoinHandle<()>),
>)
    ensures
        worker is None ==> stopping is None,
        worker matches Some(leaving) ==> stopping == Some((leaving@.0, leaving@.1.task())),
{
    match worker {
        None => None,
        Some(leaving) => {
            let leader = leaving.leader();
            Some((leader, leaving.shutdown()))
        },
    }
}

} // verus!
