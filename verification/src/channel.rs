//! The channels that carry requests to the dispatcher and replies back.

use tokio::sync::mpsc::error::SendError;
use tokio::sync::mpsc::{UnboundedReceiver, UnboundedSender};
use tokio::sync::oneshot::error::RecvError;
use tokio::sync::oneshot::{Receiver, Sender};
use vstd::prelude::*;

verus! {

/// The writing end of a single-shot channel.
#[verifier::external_type_specification]
#[verifier::external_body]
#[verifier::reject_recursive_types(T)]
pub struct ExOneshotSender<T>(Sender<T>);

/// The reading end of a single-shot channel.
#[verifier::external_type_specification]
#[verifier::external_body]
#[verifier::reject_recursive_types(T)]
pub struct ExOneshotReceiver<T>(Receiver<T>);

/// What awaiting a single-shot channel yields when its writer is gone.
#[verifier::external_type_specification]
#[verifier::external_body]
pub struct ExRecvError(RecvError);

/// A writing end of the unbounded many-writers channel.
#[verifier::external_type_specification]
#[verifier::external_body]
#[verifier::reject_recursive_types(T)]
pub struct ExUnboundedSender<T>(UnboundedSender<T>);

/// The reading end of the unbounded many-writers channel.
#[verifier::external_type_specification]
#[verifier::external_body]
#[verifier::reject_recursive_types(T)]
pub struct ExUnboundedReceiver<T>(UnboundedReceiver<T>);

/// What the many-writers channel hands back when its reader is gone.
#[verifier::external_type_specification]
#[verifier::external_body]
#[verifier::reject_recursive_types(T)]
pub struct ExSendError<T>(SendError<T>);

/// `tokio::sync::oneshot::channel`: a fresh single-shot channel. Nothing is
/// promised of its two ends.
pub assume_specification<T>[ tokio::sync::oneshot::channel::<T> ]() -> (ends: (
    Sender<T>,
    Receiver<T>,
));

/// `tokio::sync::oneshot::Sender::send`: writes the one value of the channel.
/// Whether it succeeds depends on the reader; a value that could not be
/// written comes back unchanged.
pub assume_specification<T>[ Sender::<T>::send ](sender: Sender<T>, t: T) -> (sent: Result<(), T>)
    ensures
        sent matches Err(back) ==> back == t,
;

/// `tokio::sync::mpsc::unbounded_channel`: a fresh channel without a bound.
/// Nothing is promised of its two ends.
pub assume_specification<T>[ tokio::sync::mpsc::unbounded_channel::<T> ]() -> (ends: (
    UnboundedSender<T>,
    UnboundedReceiver<T>,
));

/// `tokio::sync::mpsc::UnboundedSender::send`: appends a message to the
/// channel, or fails where the reader is gone. Which of the two happens is
/// not determined by the arguments.
pub assume_specification<T>[ UnboundedSender::<T>::send ](
    sender: &UnboundedSender<T>,
    message: T,
) -> (sent: Result<(), SendError<T>>);

} // verus!
