//! The channel that carries application events to the loop.
//!
//! The channel is that of `crossbeam_channel`. Nothing it does is verified
//! here: each function below states what the crate's source shows of one of
//! its functions, and the rest of the library is proved from these statements.

use vstd::prelude::*;
use crossbeam_channel::{Receiver, Sender};

verus! {

/// The sending half of a channel, `crossbeam_channel::Sender`.
#[verifier::external_type_specification]
#[verifier::external_body]
#[verifier::reject_recursive_types(T)]
pub struct ExSender<T>(Sender<T>);

/// The receiving half of a channel, `crossbeam_channel::Receiver`.
#[verifier::external_type_specification]
#[verifier::external_body]
#[verifier::reject_recursive_types(T)]
pub struct ExReceiver<T>(Receiver<T>);

/// Calls `crossbeam_channel::unbounded`, which makes a channel without a
/// limit on the messages it holds and hands out its two halves. Nothing is
/// claimed of them.
#[verifier::external_body]
pub(crate) fn unbounded_channel<T>() -> (halves: (Sender<T>, Receiver<T>)) {
    crossbeam_channel::unbounded()
}

/// Calls `Sender::send`. On a channel without a limit the call does not
/// block. It fails when every receiver is gone, and the error then carries
/// the message that was to be sent: that is all that is claimed.
#[verifier::external_body]
pub(crate) fn channel_send<T>(sender: &Sender<T>, message: T) -> (sent: Result<(), T>)
    ensures
        sent matches Err(returned) ==> returned == message,
{
    match sender.send(message) {
        Ok(()) => Ok(()),
        Err(crossbeam_channel::SendError(returned)) => Err(returned),
    }
}

/// Calls `Sender::clone`, which gives another sender into the same channel.
/// The copy refers to the channel's shared state as the sender does and holds
/// nothing else, so it is the same value as the sender it was made of.
#[verifier::external_body]
pub(crate) fn clone_sender<T>(sender: &Sender<T>) -> (copy: Sender<T>)
    ensures
        copy == *sender,
{
    sender.clone()
}

/// Calls `Receiver::clone`, which gives another receiver of the same channel.
/// Nothing is claimed of it.
#[verifier::external_body]
pub(crate) fn clone_receiver<T>(receiver: &Receiver<T>) -> (copy: Receiver<T>) {
    receiver.clone()
}

/// Calls `Receiver::len`, the number of messages in the channel at the
/// moment of the call. Other threads may send at any time, so nothing is
/// claimed of the number.
#[verifier::external_body]
pub(crate) fn channel_len<T>(receiver: &Receiver<T>) -> (pending: usize) {
    receiver.len()
}

/// Calls `Receiver::try_recv`, which takes a message out of the channel if
/// one is there and does not wait for one. An empty channel and one whose
/// senders are gone both give `None`. Nothing is claimed of the message.
#[verifier::external_body]
pub(crate) fn channel_try_recv<T>(receiver: &Receiver<T>) -> (message: Option<T>) {
    receiver.try_recv().ok()
}

} // verus!
