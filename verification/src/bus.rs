//! The bus: one publishing end, any number of subscribers, each with a
//! bounded backlog. The channel itself is `tokio::sync::broadcast`, reached
//! through `rocket::tokio`.

use crate::model::Message;
use crate::model::MessageView;
use rocket::tokio::sync::broadcast::Receiver;
use rocket::tokio::sync::broadcast::Sender;
use vstd::prelude::*;

verus! {

/// How many messages the bus keeps for a subscriber that has fallen behind.
pub const BACKLOG_CAPACITY: usize = 1024;

/// The publishing end of the bus, `tokio::sync::broadcast::Sender`. What is
/// inside is not looked at.
#[verifier::external_type_specification]
#[verifier::external_body]
#[verifier::reject_recursive_types(T)]
pub struct ExSender<T>(rocket::tokio::sync::broadcast::Sender<T>);

/// A subscriber's end of the bus, `tokio::sync::broadcast::Receiver`. What is
/// inside is not looked at.
#[verifier::external_type_specification]
#[verifier::external_body]
#[verifier::reject_recursive_types(T)]
pub struct ExReceiver<T>(rocket::tokio::sync::broadcast::Receiver<T>);

/// Makes a channel through `tokio::sync::broadcast::channel`, which panics
/// for a capacity of zero or of more than half of `usize::MAX`; those are left
/// out. Claimed: the publishing end belongs to a channel made for `capacity`.
#[verifier::external_body]
fn new_channel(capacity: usize) -> (ends: (Sender<Message>, Receiver<Message>))
    requires
        0 < capacity <= usize::MAX / 2,
    ensures
        made_for(ends.0) == capacity,
{
    rocket::tokio::sync::broadcast::channel(capacity)
}

/// Adds a subscriber, through `tokio::sync::broadcast::Sender::subscribe`, of which
/// nothing is claimed here. It panics where the channel has `usize::MAX / 4` subscribers.
#[verifier::external_body]
fn subscribe(sender: &Sender<Message>) -> (receiver: Receiver<Message>) {
    sender.subscribe()
}

/// Hands `message` to `tokio::sync::broadcast::Sender::send`, which puts it
/// into the channel's ring for every subscriber there is at that moment and
/// returns their number, or, where there is none, hands the message back as
/// an error. Here the count comes back, or `None` with the message dropped.
/// Nothing is claimed of the result: it depends on who subscribed.
#[verifier::external_body]
fn send_message(sender: &Sender<Message>, message: Message) -> (receivers: Option<usize>) {
    sender.send(message).ok()
}

/// Opens the bus, with a backlog of [`BACKLOG_CAPACITY`] messages for each
/// subscriber, and returns its publishing end and a first subscriber.
pub fn open_bus() -> (ends: (Sender<Message>, Receiver<Message>))
    ensures
        made_for(ends.0) == BACKLOG_CAPACITY,
{
    new_channel(BACKLOG_CAPACITY)
}

/// The capacity that the channel behind a publishing end was made with: how
/// many messages it was asked to keep for a subscriber that has fallen
/// behind. (tokio keeps that many, rounded up to a power of two.)
pub uninterp spec fn made_for(sender: Sender<Message>) -> nat;

/// Attaches a subscriber to the bus and returns its end together with the
/// message it hands to its client at once: the connected marker.
pub fn attach(sender: &Sender<Message>) -> (attached: (Receiver<Message>, Message))
    ensures
        attached.1@ == MessageView::AppUpdate,
{
    (subscribe(sender), Message::AppUpdate)
}

/// Publishes a message on the bus. Whether anyone is subscribed makes no
/// difference to the caller: a message without subscribers is dropped.
pub fn publish(sender: &Sender<Message>, message: Message) {
    let _ = send_message(sender, message);
}

} // verus!
