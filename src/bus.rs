use vstd::prelude::*;
use crate::protocol::ServerMessage;
use tokio::sync::broadcast::{Receiver, Sender};

verus! {

/// Declares tokio's `broadcast::Sender`, carried opaquely.
#[verifier::external_type_specification]
#[verifier::external_body]
#[verifier::reject_recursive_types(T)]
pub struct ExSender<T>(Sender<T>);

/// Declares tokio's `broadcast::Receiver`, handed out to sessions.
#[verifier::external_type_specification]
#[verifier::external_body]
#[verifier::reject_recursive_types(T)]
pub struct ExReceiver<T>(Receiver<T>);

/// The values written into the channel behind `s`, oldest first: each send
/// that reaches at least one receiver writes one more.
pub uninterp spec fn written_of(s: Sender<ServerMessage>) -> Seq<ServerMessage>;

/// The capacity the channel behind `s` was made with.
pub uninterp spec fn capacity_of(s: Sender<ServerMessage>) -> nat;

/// The queue bound the channel is made with; tokio rounds it up to a power of two.
pub const BUS_CAPACITY: usize = 100;

/// Relies on tokio's `broadcast::Sender::new`: builds a channel's sending half
/// with the given capacity, no receiver and nothing written. It panics on a
/// capacity of zero or above `usize::MAX / 2`.
#[verifier::external_body]
fn new_sender(capacity: usize) -> (r: Sender<ServerMessage>)
    requires
        0 < capacity <= usize::MAX / 2,
    ensures
        capacity_of(r) == capacity,
        written_of(r) == Seq::<ServerMessage>::empty(),
{
    Sender::new(capacity)
}

/// Relies on tokio's `broadcast::Sender::send`: it never blocks. With no
/// receiver subscribed it writes nothing and fails; otherwise it writes the
/// message into the ring and reports how many receivers there are.
#[verifier::external_body]
fn send_to_subscribers(sender: &mut Sender<ServerMessage>, msg: ServerMessage) -> (r: Option<usize>)
    ensures
        r matches Some(n) ==> n > 0,
        r is Some ==> written_of(*final(sender)) == written_of(*old(sender)).push(msg),
        r is None ==> written_of(*final(sender)) == written_of(*old(sender)),
        capacity_of(*final(sender)) == capacity_of(*old(sender)),
{
    sender.send(msg).ok()
}

/// Relies on tokio's `broadcast::Sender::subscribe`: a receiver of every
/// message sent after this call. It panics only once `usize::MAX / 4`
/// receivers are alive at the same time.
#[verifier::external_body]
fn subscribe_to(sender: &Sender<ServerMessage>) -> (r: Receiver<ServerMessage>) {
    sender.subscribe()
}

/// A lossy fan-out channel from registry mutations to connected sessions.
///
/// Publishing never blocks and never fails: with no subscriber the message is
/// dropped, and a subscriber that falls behind by more than the channel's
/// capacity loses its oldest unread messages. Delivery is at most once; clients
/// converge through later updates or a fresh snapshot on reconnect.
pub struct UpdateBus {
    sender: Sender<ServerMessage>,
}

impl UpdateBus {
    /// Every message written into the channel so far, oldest first.
    pub closed spec fn published(&self) -> Seq<ServerMessage> {
        written_of(self.sender)
    }

    /// The capacity the channel was made with.
    pub closed spec fn capacity(&self) -> nat {
        capacity_of(self.sender)
    }

    /// Creates a bus of capacity `BUS_CAPACITY` with nothing published.
    pub fn new() -> (r: UpdateBus)
        ensures
            r.published() == Seq::<ServerMessage>::empty(),
            r.capacity() == BUS_CAPACITY,
    {
        UpdateBus { sender: new_sender(BUS_CAPACITY) }
    }

    /// Hands `msg` to every current subscriber and returns how many there are;
    /// with none it is dropped and `None` comes back.
    pub fn publish(&mut self, msg: ServerMessage) -> (r: Option<usize>)
        ensures
            r matches Some(n) ==> n > 0,
            r is Some ==> final(self).published() == old(self).published().push(msg),
            r is None ==> final(self).published() == old(self).published(),
            final(self).capacity() == old(self).capacity(),
    {
        send_to_subscribers(&mut self.sender, msg)
    }

    /// A new subscription: it receives every message published after this call.
    pub fn subscribe(&self) -> Receiver<ServerMessage> {
        subscribe_to(&self.sender)
    }
}

} // verus!
