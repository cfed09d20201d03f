use std::time::Duration;

use tokio::runtime::{Builder, Runtime};
use tokio::sync::mpsc::{channel, Receiver};
use tokio::task::AbortHandle;
use tokio_util::sync::CancellationToken;
use tpu_client_next::{
    maybe_shutdown_worker, PeerKey, ShutdownWorker, TransactionBatch, WorkerInfo, WorkersCache,
    WorkersCacheError,
};

fn runtime() -> Runtime {
    Builder::new_current_thread().enable_time().build().unwrap()
}

fn peer(port: u16) -> PeerKey {
    (4, 0x7f00_0001, port, 0, 0)
}

fn batch(tag: u8) -> TransactionBatch {
    TransactionBatch::new(vec![vec![tag, 1, 2], vec![tag]])
}

/// A worker whose task takes batches until its channel closes and then ends.
fn draining_worker(rt: &Runtime, buffer: usize) -> (WorkerInfo, CancellationToken) {
    let (sender, mut receiver) = channel::<TransactionBatch>(buffer);
    let cancel = CancellationToken::new();
    let handle = rt.spawn(async move { while receiver.recv().await.is_some() {} });
    (WorkerInfo::new(sender, handle, cancel.clone()), cancel)
}

/// A worker whose task never takes a batch: it ends when its token is
/// cancelled. The receiver stays with the caller.
fn idle_worker(rt: &Runtime, buffer: usize) -> (WorkerInfo, Receiver<TransactionBatch>, AbortHandle) {
    let (sender, receiver) = channel::<TransactionBatch>(buffer);
    let cancel = CancellationToken::new();
    let token = cancel.clone();
    let handle = rt.spawn(async move { token.cancelled().await });
    let abort = handle.abort_handle();
    (WorkerInfo::new(sender, handle, cancel), receiver, abort)
}

fn join(rt: &Runtime, leaving: ShutdownWorker) -> Result<(), WorkersCacheError> {
    let handle = leaving.shutdown();
    let joined = rt.block_on(async { tokio::time::timeout(Duration::from_secs(5), handle).await });
    WorkersCacheError::from_join(joined.expect("the worker did not stop").is_ok())
}

#[test]
fn push_beyond_capacity_evicts_least_recently_used() {
    let rt = runtime();
    let mut cache = WorkersCache::new(2, CancellationToken::new());
    let (a, b, c) = (peer(1), peer(2), peer(3));
    assert!(cache.push(a, draining_worker(&rt, 1).0).is_none());
    assert!(cache.push(b, draining_worker(&rt, 1).0).is_none());
    let evicted = cache.push(c, draining_worker(&rt, 1).0).expect("an eviction");
    assert_eq!(evicted.leader(), a);
    assert!(!cache.contains(&a));
    assert!(cache.contains(&b));
    assert!(cache.contains(&c));
    assert_eq!(join(&rt, evicted), Ok(()));
}

#[test]
fn try_send_refreshes_recency() {
    let rt = runtime();
    let mut cache = WorkersCache::new(2, CancellationToken::new());
    let (a, b, c) = (peer(1), peer(2), peer(3));
    cache.push(a, draining_worker(&rt, 4).0);
    cache.push(b, draining_worker(&rt, 4).0);
    let (sent, pruned) = cache.try_send_transactions_to_address(&a, batch(1));
    assert_eq!(sent, Ok(()));
    assert!(pruned.is_none());
    let evicted = cache.push(c, draining_worker(&rt, 4).0).expect("an eviction");
    assert_eq!(evicted.leader(), b);
    assert!(cache.contains(&a));
    assert!(!cache.contains(&b));
    assert!(cache.contains(&c));
}

#[test]
fn contains_does_not_refresh_recency() {
    let rt = runtime();
    let mut cache = WorkersCache::new(2, CancellationToken::new());
    let (a, b, c) = (peer(1), peer(2), peer(3));
    cache.push(a, draining_worker(&rt, 1).0);
    cache.push(b, draining_worker(&rt, 1).0);
    assert!(cache.contains(&a));
    let evicted = cache.push(c, draining_worker(&rt, 1).0).expect("an eviction");
    assert_eq!(evicted.leader(), a);
}

#[test]
fn push_again_hands_back_the_old_worker_and_refreshes() {
    let rt = runtime();
    let mut cache = WorkersCache::new(2, CancellationToken::new());
    let (a, b, c) = (peer(1), peer(2), peer(3));
    let (first, first_token) = draining_worker(&rt, 1);
    cache.push(a, first);
    cache.push(b, draining_worker(&rt, 1).0);
    let replaced = cache.push(a, draining_worker(&rt, 1).0).expect("the old worker");
    assert_eq!(replaced.leader(), a);
    assert!(cache.contains(&a));
    assert!(cache.contains(&b));
    assert!(!first_token.is_cancelled());
    assert_eq!(join(&rt, replaced), Ok(()));
    assert!(first_token.is_cancelled());
    let evicted = cache.push(c, draining_worker(&rt, 1).0).expect("an eviction");
    assert_eq!(evicted.leader(), b);
    assert!(cache.contains(&a));
}

#[test]
fn pop_removes_the_entry_whatever_its_recency() {
    let rt = runtime();
    let mut cache = WorkersCache::new(3, CancellationToken::new());
    let (a, b, c) = (peer(1), peer(2), peer(3));
    cache.push(a, draining_worker(&rt, 1).0);
    cache.push(b, draining_worker(&rt, 1).0);
    cache.push(c, draining_worker(&rt, 1).0);
    let popped = cache.pop(c).expect("the worker of c");
    assert_eq!(popped.leader(), c);
    assert!(!cache.contains(&c));
    assert!(cache.contains(&a));
    assert!(cache.contains(&b));
    assert!(cache.pop(c).is_none());
    assert!(cache.pop(peer(9)).is_none());
}

#[test]
fn full_channel_is_reported_and_the_entry_stays() {
    let rt = runtime();
    let mut cache = WorkersCache::new(2, CancellationToken::new());
    let a = peer(1);
    let (worker, mut receiver, _abort) = idle_worker(&rt, 1);
    cache.push(a, worker);
    let (first, pruned) = cache.try_send_transactions_to_address(&a, batch(7));
    assert_eq!(first, Ok(()));
    assert!(pruned.is_none());
    let (second, pruned) = cache.try_send_transactions_to_address(&a, batch(8));
    assert_eq!(second, Err(WorkersCacheError::FullChannel));
    assert!(pruned.is_none());
    assert!(cache.contains(&a));
    let received = receiver.try_recv().expect("the first batch");
    assert_eq!(received.into_wired_transactions(), vec![vec![7u8, 1, 2], vec![7u8]]);
    assert!(receiver.try_recv().is_err());
    let (third, _) = cache.try_send_transactions_to_address(&a, batch(9));
    assert_eq!(third, Ok(()));
}

/// A worker whose task holds the receiver and never ends by itself.
fn stuck_worker(rt: &Runtime, buffer: usize) -> (WorkerInfo, AbortHandle) {
    let (sender, receiver) = channel::<TransactionBatch>(buffer);
    let handle = rt.spawn(async move {
        let _receiver = receiver;
        std::future::pending::<()>().await
    });
    let abort = handle.abort_handle();
    (WorkerInfo::new(sender, handle, CancellationToken::new()), abort)
}

#[test]
fn dropped_receiver_prunes_the_entry() {
    let rt = runtime();
    let mut cache = WorkersCache::new(2, CancellationToken::new());
    let (a, b) = (peer(1), peer(2));
    let (worker, abort) = stuck_worker(&rt, 1);
    cache.push(a, worker);
    cache.push(b, draining_worker(&rt, 1).0);
    // the task is ended from outside, and its receiver goes with it
    abort.abort();
    rt.block_on(async { tokio::time::sleep(Duration::from_millis(10)).await });
    let (sent, pruned) = cache.try_send_transactions_to_address(&a, batch(1));
    assert_eq!(sent, Err(WorkersCacheError::ReceiverDropped));
    assert!(!cache.contains(&a));
    assert!(cache.contains(&b));
    let pruned = pruned.expect("the dead worker");
    assert_eq!(pruned.leader(), a);
    assert_eq!(join(&rt, pruned), Err(WorkersCacheError::TaskJoinFailure));
}

#[test]
fn shutdown_drains_in_lru_order() {
    let rt = runtime();
    let token = CancellationToken::new();
    let mut cache = WorkersCache::new(3, token.clone());
    let (a, b, c) = (peer(1), peer(2), peer(3));
    cache.push(a, draining_worker(&rt, 1).0);
    cache.push(b, draining_worker(&rt, 1).0);
    cache.push(c, draining_worker(&rt, 1).0);
    let (sent, _) = cache.try_send_transactions_to_address(&a, batch(1));
    assert_eq!(sent, Ok(()));
    let leaving = cache.shutdown();
    assert!(token.is_cancelled());
    let order: Vec<PeerKey> = leaving.iter().map(|worker| worker.leader()).collect();
    assert_eq!(order, vec![b, c, a]);
    assert!(!cache.contains(&a));
    assert!(!cache.contains(&b));
    assert!(!cache.contains(&c));
    for worker in leaving {
        assert_eq!(join(&rt, worker), Ok(()));
    }
    assert!(cache.shutdown().is_empty());
}

#[test]
fn shutdown_goes_on_when_a_worker_fails_to_join() {
    let rt = runtime();
    let mut cache = WorkersCache::new(3, CancellationToken::new());
    let (a, b, c) = (peer(1), peer(2), peer(3));
    let (dead, _receiver, abort) = idle_worker(&rt, 1);
    cache.push(a, draining_worker(&rt, 1).0);
    cache.push(b, dead);
    cache.push(c, draining_worker(&rt, 1).0);
    abort.abort();
    let leaving = cache.shutdown();
    assert_eq!(leaving.len(), 3);
    let mut results = Vec::new();
    for worker in leaving {
        results.push((worker.leader(), join(&rt, worker)));
    }
    assert_eq!(
        results,
        vec![(a, Ok(())), (b, Err(WorkersCacheError::TaskJoinFailure)), (c, Ok(()))]
    );
    assert!(!cache.contains(&a) && !cache.contains(&b) && !cache.contains(&c));
}

#[test]
fn after_shutdown_every_send_fails_with_shutdown_error() {
    let rt = runtime();
    let mut cache = WorkersCache::new(2, CancellationToken::new());
    let a = peer(1);
    cache.push(a, draining_worker(&rt, 1).0);
    let _ = cache.shutdown();
    let never_submitted = peer(77);
    let (sent, pruned) = cache.try_send_transactions_to_address(&never_submitted, batch(1));
    assert_eq!(sent, Err(WorkersCacheError::ShutdownError));
    assert!(pruned.is_none());
    let (sent, _) = cache.try_send_transactions_to_address(&a, batch(1));
    assert_eq!(sent, Err(WorkersCacheError::ShutdownError));
    assert!(matches!(cache.begin_send(&a), Err(WorkersCacheError::ShutdownError)));
    assert!(cache.check_shutdown());
    // a worker pushed after the shutdown is stored but gets nothing
    cache.push(a, draining_worker(&rt, 1).0);
    assert!(cache.contains(&a));
    let (sent, _) = cache.try_send_transactions_to_address(&a, batch(1));
    assert_eq!(sent, Err(WorkersCacheError::ShutdownError));
    assert!(cache.contains(&a));
}

#[test]
fn cancelled_token_stops_delivery_without_touching_entries() {
    let rt = runtime();
    let token = CancellationToken::new();
    let mut cache = WorkersCache::new(2, token.clone());
    let (a, b, c) = (peer(1), peer(2), peer(3));
    let (worker, mut receiver, _abort) = idle_worker(&rt, 1);
    cache.push(a, worker);
    cache.push(b, draining_worker(&rt, 1).0);
    assert!(!cache.check_shutdown());
    assert!(!cache.cancellation().is_cancelled());
    token.cancel();
    let (sent, pruned) = cache.try_send_transactions_to_address(&a, batch(1));
    assert_eq!(sent, Err(WorkersCacheError::ShutdownError));
    assert!(pruned.is_none());
    assert!(receiver.try_recv().is_err());
    assert!(cache.check_shutdown());
    // a was not refreshed by the failed send: it is still the one to go
    let evicted = cache.push(c, draining_worker(&rt, 1).0).expect("an eviction");
    assert_eq!(evicted.leader(), a);
}

#[test]
fn waiting_send_goes_through_the_two_halves() {
    let rt = runtime();
    let mut cache = WorkersCache::new(2, CancellationToken::new());
    let (a, b) = (peer(1), peer(2));
    let (worker, mut receiver, _abort) = idle_worker(&rt, 1);
    cache.push(a, worker);
    cache.push(b, draining_worker(&rt, 1).0);
    let delivered = {
        let worker = cache.begin_send(&a).expect("the cache is active");
        rt.block_on(worker.sender().send(batch(3))).is_ok()
    };
    let (sent, pruned) = cache.finish_send(&a, Some(delivered));
    assert_eq!(sent, Ok(()));
    assert!(pruned.is_none());
    assert!(cache.contains(&a));
    let received = receiver.try_recv().expect("the batch");
    assert_eq!(received.into_wired_transactions(), vec![vec![3u8, 1, 2], vec![3u8]]);
    // the look-up refreshed a: b is the one to go
    let evicted = cache.push(peer(3), draining_worker(&rt, 1).0).expect("an eviction");
    assert_eq!(evicted.leader(), b);

    drop(receiver);
    let delivered = {
        let worker = cache.begin_send(&a).expect("the cache is active");
        rt.block_on(worker.sender().send(batch(4))).is_ok()
    };
    let (sent, pruned) = cache.finish_send(&a, Some(delivered));
    assert_eq!(sent, Err(WorkersCacheError::ReceiverDropped));
    assert_eq!(pruned.expect("the dead worker").leader(), a);
    assert!(!cache.contains(&a));
}

#[test]
fn cancellation_wins_over_a_waiting_send() {
    let rt = runtime();
    let token = CancellationToken::new();
    let mut cache = WorkersCache::new(2, token.clone());
    let a = peer(1);
    let (worker, mut receiver, _abort) = idle_worker(&rt, 1);
    cache.push(a, worker);
    let (first, _) = cache.try_send_transactions_to_address(&a, batch(1));
    assert_eq!(first, Ok(()));
    // the channel is full now: a waiting send stays pending until the token fires
    let delivered = {
        let worker = cache.begin_send(&a).expect("the cache is active");
        let cancel = token.clone();
        rt.block_on(async {
            let canceller = tokio::spawn(async move {
                tokio::time::sleep(Duration::from_millis(20)).await;
                cancel.cancel();
            });
            let raced = token.run_until_cancelled(worker.sender().send(batch(2))).await;
            canceller.await.unwrap();
            raced.map(|sent| sent.is_ok())
        })
    };
    assert_eq!(delivered, None);
    let (sent, pruned) = cache.finish_send(&a, delivered);
    assert_eq!(sent, Err(WorkersCacheError::ShutdownError));
    assert!(pruned.is_none());
    assert!(cache.contains(&a));
    assert!(cache.check_shutdown());
    assert_eq!(receiver.try_recv().unwrap().into_wired_transactions(), vec![vec![1u8, 1, 2], vec![1u8]]);
    assert!(receiver.try_recv().is_err());
}

#[test]
fn finish_send_without_an_entry_prunes_nothing() {
    let mut cache = WorkersCache::new(2, CancellationToken::new());
    let (sent, pruned) = cache.finish_send(&peer(1), Some(false));
    assert_eq!(sent, Err(WorkersCacheError::ReceiverDropped));
    assert!(pruned.is_none());
    let (sent, pruned) = cache.finish_send(&peer(1), None);
    assert_eq!(sent, Err(WorkersCacheError::ShutdownError));
    assert!(pruned.is_none());
    assert!(cache.check_shutdown());
}

#[test]
fn prune_dropped_leaves_the_cache_alone_on_other_outcomes() {
    let rt = runtime();
    let mut cache = WorkersCache::new(2, CancellationToken::new());
    let a = peer(1);
    cache.push(a, draining_worker(&rt, 1).0);
    assert!(cache.prune_dropped(&a, Ok(())).is_none());
    assert!(cache.prune_dropped(&a, Err(WorkersCacheError::FullChannel)).is_none());
    assert!(cache.prune_dropped(&a, Err(WorkersCacheError::ShutdownError)).is_none());
    assert!(cache.prune_dropped(&a, Err(WorkersCacheError::TaskJoinFailure)).is_none());
    assert!(cache.contains(&a));
    assert!(cache.prune_dropped(&peer(2), Err(WorkersCacheError::ReceiverDropped)).is_none());
    assert!(cache.contains(&a));
    let pruned = cache.prune_dropped(&a, Err(WorkersCacheError::ReceiverDropped));
    assert_eq!(pruned.expect("the worker of a").leader(), a);
    assert!(!cache.contains(&a));
}

#[test]
fn capacity_one_keeps_only_the_latest_peer() {
    let rt = runtime();
    let mut cache = WorkersCache::new(1, CancellationToken::new());
    let (a, b) = (peer(1), peer(2));
    assert!(cache.push(a, draining_worker(&rt, 1).0).is_none());
    let evicted = cache.push(b, draining_worker(&rt, 1).0).expect("an eviction");
    assert_eq!(evicted.leader(), a);
    assert!(!cache.contains(&a));
    assert!(cache.contains(&b));
}

#[test]
fn keys_differ_in_every_part() {
    let rt = runtime();
    let mut cache = WorkersCache::new(8, CancellationToken::new());
    let base: PeerKey = (6, 1, 8000, 0, 0);
    cache.push(base, draining_worker(&rt, 1).0);
    assert!(cache.contains(&base));
    assert!(!cache.contains(&(4, 1, 8000, 0, 0)));
    assert!(!cache.contains(&(6, 2, 8000, 0, 0)));
    assert!(!cache.contains(&(6, 1, 8001, 0, 0)));
    assert!(!cache.contains(&(6, 1, 8000, 1, 0)));
    assert!(!cache.contains(&(6, 1, 8000, 0, 1)));
}

#[test]
fn maybe_shutdown_worker_stops_a_worker_that_is_there() {
    let rt = runtime();
    let mut cache = WorkersCache::new(1, CancellationToken::new());
    let a = peer(1);
    let (worker, token) = draining_worker(&rt, 1);
    cache.push(a, worker);
    assert!(maybe_shutdown_worker(cache.pop(peer(2))).is_none());
    assert!(!token.is_cancelled());
    let (leader, handle) = maybe_shutdown_worker(cache.pop(a)).expect("the worker of a");
    assert_eq!(leader, a);
    assert!(token.is_cancelled());
    let joined = rt.block_on(async { tokio::time::timeout(Duration::from_secs(5), handle).await });
    assert!(joined.expect("the worker did not stop").is_ok());
}

#[test]
fn cache_and_workers_can_move_between_threads() {
    fn is_send<T: Send>() {}
    is_send::<WorkersCache>();
    is_send::<WorkerInfo>();
    is_send::<ShutdownWorker>();
    is_send::<TransactionBatch>();
}

#[test]
fn a_cancellation_that_was_noted_is_remembered() {
    let rt = runtime();
    let token = CancellationToken::new();
    let mut cache = WorkersCache::new(2, token.clone());
    let a = peer(1);
    cache.push(a, draining_worker(&rt, 1).0);
    assert!(!cache.note_cancellation(false));
    assert!(cache.note_cancellation(true));
    assert!(cache.note_cancellation(false));
    assert!(cache.check_shutdown());
    assert!(cache.contains(&a));
    // taking note cancels nothing
    assert!(!token.is_cancelled());
}

#[test]
fn try_send_with_a_cancelled_token_touches_nothing() {
    let rt = runtime();
    let mut cache = WorkersCache::new(2, CancellationToken::new());
    let (a, b, c) = (peer(1), peer(2), peer(3));
    let (sender, mut receiver) = channel::<TransactionBatch>(4);
    let own_token = CancellationToken::new();
    let handle = rt.spawn(async {});
    cache.push(a, WorkerInfo::new(sender, handle, own_token.clone()));
    cache.push(b, draining_worker(&rt, 1).0);
    let (sent, pruned) = cache.try_send_transactions_with(&a, batch(1), true);
    assert_eq!(sent, Err(WorkersCacheError::ShutdownError));
    assert!(pruned.is_none());
    assert!(cache.contains(&a));
    assert!(receiver.try_recv().is_err());
    assert!(!own_token.is_cancelled());
    let (sent, pruned) = cache.try_send_transactions_with(&peer(9), batch(1), true);
    assert_eq!(sent, Err(WorkersCacheError::ShutdownError));
    assert!(pruned.is_none());
    // and it stays so, whatever the token says later
    let (sent, _) = cache.try_send_transactions_with(&a, batch(1), false);
    assert_eq!(sent, Err(WorkersCacheError::ShutdownError));
    assert!(receiver.try_recv().is_err());
    // a was not promoted: it is still the one to go
    let evicted = cache.push(c, draining_worker(&rt, 1).0).expect("an eviction");
    assert_eq!(evicted.leader(), a);
}

#[test]
fn try_send_with_an_active_token_delivers_and_promotes() {
    let rt = runtime();
    let mut cache = WorkersCache::new(2, CancellationToken::new());
    let (a, b, c) = (peer(1), peer(2), peer(3));
    let (worker, mut receiver, _abort) = idle_worker(&rt, 1);
    cache.push(a, worker);
    cache.push(b, draining_worker(&rt, 1).0);
    let (sent, pruned) = cache.try_send_transactions_with(&a, batch(5), false);
    assert_eq!(sent, Ok(()));
    assert!(pruned.is_none());
    assert_eq!(
        receiver.try_recv().expect("the batch").into_wired_transactions(),
        vec![vec![5u8, 1, 2], vec![5u8]]
    );
    assert!(!cache.check_shutdown());
    let evicted = cache.push(c, draining_worker(&rt, 1).0).expect("an eviction");
    assert_eq!(evicted.leader(), b);
}

#[test]
fn begin_send_with_follows_the_answer_of_the_token() {
    let rt = runtime();
    let mut cache = WorkersCache::new(2, CancellationToken::new());
    let (a, b, c) = (peer(1), peer(2), peer(3));
    cache.push(a, draining_worker(&rt, 1).0);
    cache.push(b, draining_worker(&rt, 1).0);
    assert!(cache.begin_send_with(&a, false).is_ok());
    assert!(!cache.note_cancellation(false));
    assert!(matches!(cache.begin_send_with(&b, true), Err(WorkersCacheError::ShutdownError)));
    assert!(matches!(cache.begin_send_with(&b, false), Err(WorkersCacheError::ShutdownError)));
    assert!(matches!(cache.begin_send_with(&peer(9), false), Err(WorkersCacheError::ShutdownError)));
    // only the first look-up promoted its peer: b is the one to go
    let evicted = cache.push(c, draining_worker(&rt, 1).0).expect("an eviction");
    assert_eq!(evicted.leader(), b);
}

#[test]
fn shutdown_next_takes_one_worker_at_a_time() {
    let rt = runtime();
    let token = CancellationToken::new();
    let mut cache = WorkersCache::new(3, token.clone());
    let (a, b, c) = (peer(1), peer(2), peer(3));
    cache.push(a, draining_worker(&rt, 1).0);
    cache.push(b, draining_worker(&rt, 1).0);
    cache.push(c, draining_worker(&rt, 1).0);
    assert!(cache.begin_send(&a).is_ok());
    let first = cache.shutdown_next().expect("the least recently used worker");
    assert_eq!(first.leader(), b);
    assert!(token.is_cancelled());
    assert!(!cache.contains(&b));
    assert!(cache.contains(&c));
    assert!(cache.contains(&a));
    assert!(matches!(cache.begin_send(&a), Err(WorkersCacheError::ShutdownError)));
    assert_eq!(join(&rt, first), Ok(()));
    let second = cache.shutdown_next().expect("the next worker");
    assert_eq!(second.leader(), c);
    let third = cache.shutdown_next().expect("the last worker");
    assert_eq!(third.leader(), a);
    assert!(cache.shutdown_next().is_none());
    assert!(cache.shutdown_next().is_none());
    assert!(!cache.contains(&a) && !cache.contains(&b) && !cache.contains(&c));
}

#[test]
fn shutdown_of_an_empty_cache_still_shuts_it_down() {
    let token = CancellationToken::new();
    let mut cache = WorkersCache::new(1, token.clone());
    assert!(cache.shutdown().is_empty());
    assert!(token.is_cancelled());
    assert!(cache.note_cancellation(false));
}
