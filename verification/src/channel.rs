//! The cell through which the published height reaches the rest of the node:
//! a watch channel, which holds the last value sent and wakes its receivers
//! on every change.

use tokio::sync::watch::{Receiver, Sender};
use vstd::prelude::*;

verus! {

/// `tokio::sync::watch::Sender`, the sending half of a watch channel. Verus
/// sees nothing inside it.
#[verifier::external_type_specification]
#[verifier::external_body]
#[verifier::reject_recursive_types(T)]
pub struct ExSender<T>(Sender<T>);

/// `tokio::sync::watch::Receiver`, a receiving half of a watch channel.
/// Verus sees nothing inside it.
#[verifier::external_type_specification]
#[verifier::external_body]
#[verifier::reject_recursive_types(T)]
pub struct ExReceiver<T>(Receiver<T>);

/// The height that the channel of a sender holds. It stands for the sender
/// that alone sends on its channel: what such a channel holds changes only
/// when that sender sends.
pub uninterp spec fn published(sender: Sender<Option<u64>>) -> Option<u64>;

/// `tokio::sync::watch::channel`, called with no height, of which the sending
/// half is kept: the new channel holds the value it was made with.
#[verifier::external_body]
pub(crate) fn open() -> (sender: Sender<Option<u64>>)
    ensures
        published(sender) is None,
{
    tokio::sync::watch::channel(None).0
}

/// `Sender::borrow`: the value that the channel holds. The sender is the
/// only one of its channel, so the value is the one it sent last.
#[verifier::external_body]
pub(crate) fn current(sender: &Sender<Option<u64>>) -> (height: Option<u64>)
    ensures
        height == published(*sender),
{
    *sender.borrow()
}

/// `Sender::send_replace`: the channel holds the value sent, whether or not
/// a receiver is left, and every receiver is woken.
#[verifier::external_body]
pub(crate) fn publish(sender: &mut Sender<Option<u64>>, height: Option<u64>)
    ensures
        published(*final(sender)) == height,
{
    sender.send_replace(height);
}

/// `Sender::subscribe`: a new receiver of the sender's channel.
#[verifier::external_body]
pub(crate) fn subscribe(sender: &Sender<Option<u64>>) -> (receiver: Receiver<Option<u64>>) {
    sender.subscribe()
}

/// `Receiver::borrow`: the value that the channel holds at the time of the
/// call. What it is depends on what the sender has done by then.
#[verifier::external_body]
pub(crate) fn latest(receiver: &Receiver<Option<u64>>) -> (height: Option<u64>) {
    *receiver.borrow()
}

} // verus!
