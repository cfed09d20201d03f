//! The pieces of the asynchronous runtime that a worker is made of: the
//! sending half of its channel, the handle of its task and the cancellation
//! token. Nothing in this module is proved; each item says what it takes on
//! trust.

use tokio::sync::mpsc::error::TrySendError;
use tokio::sync::mpsc::Sender;
use tokio_util::sync::CancellationToken;
use vstd::prelude::*;

use crate::batch::TransactionBatch;
use crate::error::TrySendFailure;

verus! {

/// `tokio::sync::mpsc::Sender`, the sending half of a bounded channel.
/// Opaque: the state of the channel is not visible to proofs.
#[verifier::external_type_specification]
#[verifier::external_body]
#[verifier::reject_recursive_types(T)]
pub struct ExSender<T>(tokio::sync::mpsc::Sender<T>);

/// `tokio::task::JoinHandle`, on which the end of a task is awaited. Opaque.
#[verifier::external_type_specification]
#[verifier::external_body]
#[verifier::reject_recursive_types(T)]
pub struct ExJoinHandle<T>(tokio::task::JoinHandle<T>);

/// `tokio::task::JoinError`, with which awaiting a `JoinHandle` fails. Opaque.
/// The library never holds one: the declaration stands because `JoinHandle`
/// is a future whose output names this type, and the verifier reads that
/// impl along with `JoinHandle` itself.
#[verifier::external_type_specification]
#[verifier::external_body]
pub struct ExJoinError(tokio::task::JoinError);

/// `tokio_util::sync::CancellationToken`. Opaque: whether it is cancelled is
/// shared with every clone of the token and can change at any moment.
#[verifier::external_type_specification]
#[verifier::external_body]
pub struct ExCancellationToken(tokio_util::sync::CancellationToken);

/// `CancellationToken::cancel`: cancels the token and its children. Nothing
/// is claimed of it.
pub assume_specification[ CancellationToken::cancel ](token: &CancellationToken)
;

/// `CancellationToken::is_cancelled`: since any holder of a clone may cancel
/// the token, nothing is claimed of the answer.
pub assume_specification[ CancellationToken::is_cancelled ](token: &CancellationToken) -> (cancelled: bool)
;

/// `core::mem::drop`: lets a value go. Nothing is claimed of it.
pub assume_specification<T>[ core::mem::drop::<T> ](value: T)
;

/// `Sender::try_send`: attempts to enqueue `batch` without waiting. The
/// outcome depends on the state of the channel, so nothing is claimed of it;
/// the two variants of tokio's error are told apart and the unsent batch is
/// let go.
#[verifier::external_body]
pub(crate) fn channel_try_send(sender: &Sender<TransactionBatch>, batch: TransactionBatch) -> (outcome: Result<(), TrySendFailure>)
{
    match sender.try_send(batch) {
        Ok(()) => Ok(()),
        Err(TrySendError::Full(_)) => Err(TrySendFailure::Full),
        Err(TrySendError::Closed(_)) => Err(TrySendFailure::Closed),
    }
}

} // verus!
