//! The mailboxes between the background workers and the observer: ends of
//! `std::sync::mpsc` channels, carried through verified code as opaque values.

use std::sync::mpsc::{Receiver, Sender};
use vstd::prelude::*;

verus! {

/// `std::sync::mpsc::Sender`: the sending end of a channel, opaque here.
#[verifier::external_type_specification]
#[verifier::external_body]
#[verifier::reject_recursive_types(T)]
pub struct ExSender<T>(Sender<T>);

/// `std::sync::mpsc::Receiver`: the receiving end of a channel, opaque here.
#[verifier::external_type_specification]
#[verifier::external_body]
#[verifier::reject_recursive_types(T)]
pub struct ExReceiver<T>(Receiver<T>);

/// `std::sync::mpsc::channel`: a fresh unbounded channel. Nothing is claimed
/// of the two ends.
#[verifier::external_body]
pub(crate) fn open_channel<T>() -> (ends: (Sender<T>, Receiver<T>)) {
    std::sync::mpsc::channel()
}

/// `Sender::send`: queues `message` without blocking. The call fails once the
/// receiving end is gone, so nothing is claimed of the answer; `true` reports
/// that the message was queued.
#[verifier::external_body]
pub(crate) fn send<T>(sender: &Sender<T>, message: T) -> (queued: bool) {
    sender.send(message).is_ok()
}

/// `Receiver::try_recv`: takes the oldest queued message, if there is one,
/// without blocking. What comes back depends on the other threads, so nothing
/// is claimed of it.
#[verifier::external_body]
pub(crate) fn try_receive<T>(receiver: &Receiver<T>) -> (message: Option<T>) {
    receiver.try_recv().ok()
}

/// `Sender::clone`: another handle on the same channel. The contracts know a
/// sending end only by the channel that it feeds, so the new handle counts as
/// the same value as the one it was cloned from.
#[verifier::external_body]
pub(crate) fn clone_sender<T>(sender: &Sender<T>) -> (handle: Sender<T>)
    ensures
        handle == *sender,
{
    sender.clone()
}

} // verus!
