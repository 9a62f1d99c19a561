//! Multi-producer/multi-consumer channels: a manager that hands out receiving ends and keeps
//! the sending ends, to send to one or all of them.
use vstd::prelude::*;
use std::sync::mpsc::{Sender, Receiver, SendError};
use crate::channel::{Channel, Sent, new_channel, send_on};

verus! {

/// The sending end of a channel (`std::sync::mpsc::Sender`).
#[verifier::external_type_specification]
#[verifier::external_body]
#[verifier::reject_recursive_types(T)]
pub struct ExSender<T>(Sender<T>);

/// The receiving end of a channel (`std::sync::mpsc::Receiver`).
#[verifier::external_type_specification]
#[verifier::external_body]
#[verifier::reject_recursive_types(T)]
pub struct ExReceiver<T>(Receiver<T>);

/// The error of a send on a channel whose receiver is gone (`std::sync::mpsc::SendError`).
#[verifier::external_type_specification]
#[verifier::external_body]
#[verifier::reject_recursive_types(T)]
pub struct ExSendError<T>(SendError<T>);

/// `Receiver::recv`: waits for a value; `None` when every sending end is gone. Which value comes
/// depends on the senders, so nothing is claimed of it.
#[verifier::external_body]
pub(crate) fn recv_on<T>(rx: &Receiver<T>) -> Option<T> {
    rx.recv().ok()
}

/// Multi-producer, multi-consumer manager. Hands out channels and holds onto the sending ends,
/// and has methods for sending to one or all of them.
#[verifier::reject_recursive_types(T)]
pub struct MultiSender<T> {
    /// All open client channels' sending ends, in the order they were handed out
    clients: Vec<Sender<T>>,
    /// The channel that each client's sending end belongs to
    channels: Ghost<Seq<Channel<T>>>,
}

impl<T: Clone> MultiSender<T> {
    /// The channels handed out, in order: client `k`'s receiving end is that of channel `k`.
    pub closed spec fn channels(&self) -> Seq<Channel<T>> {
        self.channels@
    }

    /// The sending ends held, in the order the receiving ends were handed out.
    pub open spec fn clients(&self) -> Seq<Sender<T>> {
        self.channels().map_values(|c: Channel<T>| c.sending_end())
    }

    /// Well-formedness: the sending ends held are those of the channels handed out.
    pub closed spec fn wf(&self) -> bool {
        &&& self.clients@.len() == self.channels@.len()
        &&& forall|k: int| 0 <= k < self.clients@.len() ==> self.clients@[k] == (#[trigger] self.channels@[k]).sending_end()
    }

    /// A manager with no clients.
    pub fn new() -> (r: MultiSender<T>)
        ensures
            r.wf(),
            r.channels() == Seq::<Channel<T>>::empty(),
    {
        MultiSender { clients: Vec::new(), channels: Ghost(Seq::empty()) }
    }

    /// Creates a channel, keeps the sending end and returns the receiving end. The receiving ends
    /// are kept in order, so the index of a client for `send_one` is the number of receivers
    /// handed out before it.
    pub fn receiver(&mut self) -> (r: Receiver<T>)
        requires
            old(self).wf(),
        ensures
            final(self).wf(),
            final(self).channels().len() == old(self).channels().len() + 1,
            final(self).channels().drop_last() == old(self).channels(),
            r == final(self).channels().last().receiving_end(),
    {
        let ch = new_channel();
        let ghost c = ch;
        let (tx, rx) = ch.into_ends();
        self.clients.push(tx);
        self.channels = Ghost(self.channels@.push(c));
        assert(self.channels@.drop_last() =~= old(self).channels@);
        rx
    }

    /// Sends a message to every client, disconnected ones included, so that the indices stay
    /// predictable for `send_one`. Gives back, in the order of the sends, what each send was
    /// handed: client `k`'s sending end and a clone of the message.
    pub fn send(&self, msg: T) -> (r: Ghost<Seq<Sent<T>>>)
        requires
            self.wf(),
        ensures
            r@.len() == self.clients().len(),
            forall|k: int| 0 <= k < r@.len() ==> (#[trigger] r@[k]).sending_end() == self.clients()[k] && cloned(msg, r@[k].message()),
    {
        let mut handed: Ghost<Seq<Sent<T>>> = Ghost(Seq::empty());
        let mut i: usize = 0;
        while i < self.clients.len()
            invariant
                self.wf(),
                i <= self.clients.len(),
                handed@.len() == i,
                forall|k: int| 0 <= k < i ==> (#[trigger] handed@[k]).sending_end() == self.clients()[k] && cloned(msg, handed@[k].message()),
            decreases self.clients.len() - i,
        {
            let m = msg.clone();
            let (_, h) = send_on(&self.clients[i], m);
            assert(self.clients()[i as int] == self.clients@[i as int]);
            handed = Ghost(handed@.push(h@));
            i = i + 1;
        }
        handed
    }

    /// How many receiving ends were handed out.
    pub fn client_count(&self) -> (r: usize)
        requires
            self.wf(),
        ensures
            r == self.clients().len(),
    {
        self.clients.len()
    }

    /// Sends a message to the client at index `i`. An error means that the client's receiving
    /// end is gone (the error holds the message). Gives back, with the result, what the send was
    /// handed: client `i`'s sending end and a clone of the message.
    pub fn send_one(&self, i: usize, msg: T) -> (r: (Result<(), SendError<T>>, Ghost<Sent<T>>))
        requires
            self.wf(),
            i < self.clients().len(),
        ensures
            r.1@.sending_end() == self.clients()[i as int],
            cloned(msg, r.1@.message()),
    {
        assert(self.clients()[i as int] == self.clients@[i as int]);
        send_on(&self.clients[i], msg.clone())
    }

    /// Forgets about all the clients.
    pub fn disconnect_all(&mut self)
        ensures
            final(self).wf(),
            final(self).channels() == Seq::<Channel<T>>::empty(),
    {
        self.clients = Vec::new();
        self.channels = Ghost(Seq::empty());
    }
}

} // verus!
