//! The closed set of failures that the cache and its workers report.

use vstd::prelude::*;

verus! {

/// Why a delivery or a shutdown did not succeed.
#[derive(Debug, Clone, Copy, PartialEq, Eq, Structural)]
pub enum WorkersCacheError {
    /// The worker's receiving side is gone: the worker died or finished.
    ReceiverDropped,
    /// The worker's channel has no room left; a transient condition.
    FullChannel,
    /// Waiting for the worker's task to finish failed.
    TaskJoinFailure,
    /// The cache is being shut down.
    ShutdownError,
}

/// Why an immediate send did not enqueue the batch.
#[derive(Debug, Clone, Copy, PartialEq, Eq, Structural)]
pub enum TrySendFailure {
    /// The channel's buffer is full.
    Full,
    /// The receiving half is closed or dropped.
    Closed,
}

impl WorkersCacheError {
    /// What an immediate send comes to: it enqueued the batch, or met a full
    /// buffer, which is back-pressure, or a closed channel, which is a worker
    /// that is gone.
    pub fn from_try_send(outcome: Result<(), TrySendFailure>) -> (sent: Result<
        (),
        WorkersCacheError,
    >)
        ensures
            sent == match outcome {
                Ok(_) => Ok::<(), WorkersCacheError>(()),
                Err(TrySendFailure::Full) => Err(WorkersCacheError::FullChannel),
                Err(TrySendFailure::Closed) => Err(WorkersCacheError::ReceiverDropped),
            },
    {
        match outcome {
            Ok(()) => Ok(()),
            Err(TrySendFailure::Full) => Err(WorkersCacheError::FullChannel),
            Err(TrySendFailure::Closed) => Err(WorkersCacheError::ReceiverDropped),
        }
    }

    /// What a send that waited for room comes to: `delivered` tells whether
    /// the channel took the batch; if it did not, the receiver is gone.
    pub fn from_send(delivered: bool) -> (sent: Result<(), WorkersCacheError>)
        ensures
            sent == if delivered {
                Ok::<(), WorkersCacheError>(())
            } else {
                Err(WorkersCacheError::ReceiverDropped)
            },
    {
        if delivered {
            Ok(())
        } else {
            Err(WorkersCacheError::ReceiverDropped)
        }
    }

    /// What the shutdown of a worker comes to: `joined` tells whether
    /// awaiting the worker's task succeeded.
    pub fn from_join(joined: bool) -> (stopped: Result<(), WorkersCacheError>)
        ensures
            stopped == if joined {
                Ok::<(), WorkersCacheError>(())
            } else {
                Err(WorkersCacheError::TaskJoinFailure)
            },
    {
        if joined {
            Ok(())
        } else {
            Err(WorkersCacheError::TaskJoinFailure)
        }
    }

    /// The text that describes this error to a person.
    pub open spec fn message_spec(self) -> Seq<char> {
        match self {
            WorkersCacheError::ReceiverDropped => "Work receiver has been dropped unexpectedly."@,
            WorkersCacheError::FullChannel => "Worker's channel is full."@,
            WorkersCacheError::TaskJoinFailure => "Task failed to join."@,
            WorkersCacheError::ShutdownError => "The WorkersCache is being shutdown."@,
        }
    }

    /// Renders the error as text.
    pub fn message(&self) -> (text: String)
        ensures
            text@ == self.message_spec(),
    {
        match self {
            WorkersCacheError::ReceiverDropped => "Work receiver has been dropped unexpectedly.".to_string(),
            WorkersCacheError::FullChannel => "Worker's channel is full.".to_string(),
            WorkersCacheError::TaskJoinFailure => "Task failed to join.".to_string(),
            WorkersCacheError::ShutdownError => "The WorkersCache is being shutdown.".to_string(),
        }
    }
}

} // verus!
