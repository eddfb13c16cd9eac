//! The channels of `tokio` that carry replies to their waiters and frames
//! to the transport.
//!
//! What becomes of a value handed to a channel depends on the other end, so
//! none of the calls promises delivery.

use tokio::sync::mpsc::error::SendError;
use tokio::sync::mpsc::UnboundedSender;
use tokio::sync::oneshot::{Receiver, Sender};
use vstd::prelude::*;

verus! {

/// `tokio::sync::oneshot::Sender`: the sending half of a single-use channel.
#[verifier::external_type_specification]
#[verifier::external_body]
#[verifier::reject_recursive_types(T)]
pub struct ExOneshotSender<T>(tokio::sync::oneshot::Sender<T>);

/// `tokio::sync::oneshot::Receiver`: the receiving half of a single-use
/// channel.
#[verifier::external_type_specification]
#[verifier::external_body]
#[verifier::reject_recursive_types(T)]
pub struct ExOneshotReceiver<T>(tokio::sync::oneshot::Receiver<T>);

/// `tokio::sync::oneshot::error::RecvError`: what a receiver yields whose
/// sender was dropped without sending. Nothing here names the type; it is
/// declared because tokio's `Future` for the receiver has it in its output,
/// and the receiver cannot be declared without it.
#[verifier::external_type_specification]
#[verifier::external_body]
pub struct ExRecvError(tokio::sync::oneshot::error::RecvError);

/// `tokio::sync::mpsc::UnboundedSender`: the sending half of a queue
/// without a bound.
#[verifier::external_type_specification]
#[verifier::external_body]
#[verifier::reject_recursive_types(T)]
pub struct ExUnboundedSender<T>(tokio::sync::mpsc::UnboundedSender<T>);

/// `tokio::sync::mpsc::error::SendError`: the error of a queue whose
/// receiving half is closed, with the value that was not sent.
#[verifier::external_type_specification]
#[verifier::external_body]
#[verifier::reject_recursive_types(T)]
pub struct ExSendError<T>(tokio::sync::mpsc::error::SendError<T>);

/// `tokio::sync::oneshot::channel`: a fresh single-use channel, as its
/// sending and its receiving half.
#[verifier::external_body]
pub(crate) fn oneshot_channel<T>() -> (halves: (Sender<T>, Receiver<T>)) {
    tokio::sync::oneshot::channel()
}

/// `tokio::sync::oneshot::Sender::send`: tries to hand `value` to the
/// receiving half. Where the receiver is gone the value comes back in `Err`.
/// `Ok` does not say that the value will be read.
#[verifier::external_body]
pub(crate) fn oneshot_send<T>(slot: Sender<T>, value: T) -> (outcome: Result<(), T>)
    ensures
        outcome matches Err(returned) ==> returned == value,
{
    slot.send(value)
}

/// `tokio::sync::mpsc::UnboundedSender::send`: tries to put `value` at the
/// end of the queue. It fails where the receiving half is closed or gone.
#[verifier::external_body]
pub(crate) fn queue_send<T>(queue: &UnboundedSender<T>, value: T) -> (outcome: Result<
    (),
    SendError<T>,
>) {
    queue.send(value)
}

} // verus!
