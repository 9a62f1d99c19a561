//! The two ends of a channel, kept together as the channel made them.
use vstd::prelude::*;
use std::sync::mpsc::{Sender, Receiver, SendError};

verus! {

/// The sending and the receiving end of one channel. Only `new_channel` makes one, so a value
/// of this type always holds two ends of the same channel.
#[verifier::reject_recursive_types(T)]
pub struct Channel<T> {
    tx: Sender<T>,
    rx: Receiver<T>,
}

impl<T> Channel<T> {
    /// The channel's sending end.
    pub closed spec fn sending_end(&self) -> Sender<T> {
        self.tx
    }

    /// The channel's receiving end.
    pub closed spec fn receiving_end(&self) -> Receiver<T> {
        self.rx
    }

    /// Takes the channel apart into its two ends.
    pub fn into_ends(self) -> (r: (Sender<T>, Receiver<T>))
        ensures
            r.0 == self.sending_end(),
            r.1 == self.receiving_end(),
    {
        (self.tx, self.rx)
    }
}

/// `std::sync::mpsc::channel`: a new channel, whose two ends it keeps together; nothing more is
/// claimed of them.
#[verifier::external_body]
pub(crate) fn new_channel<T>() -> Channel<T> {
    let (tx, rx) = std::sync::mpsc::channel();
    Channel { tx: tx, rx: rx }
}

/// A value handed to a sending end by `send_on`. Only `send_on` makes one, so a value of this
/// type always stands for a send that happened.
#[verifier::reject_recursive_types(T)]
pub struct Sent<T> {
    to: Sender<T>,
    msg: T,
}

impl<T> Sent<T> {
    /// The sending end that the value was handed to.
    pub closed spec fn sending_end(&self) -> Sender<T> {
        self.to
    }

    /// The value handed.
    pub closed spec fn message(&self) -> T {
        self.msg
    }
}

/// `Sender::send`: hands a value to a sending end. Whether it arrives depends on the receiving
/// end (an error, which holds the value, means that it is gone), so nothing is claimed of the
/// result; the record that comes back with it is the send that was made: the sending end and
/// the value it was handed.
#[verifier::external_body]
pub(crate) fn send_on<T>(s: &Sender<T>, msg: T) -> (r: (Result<(), SendError<T>>, Ghost<Sent<T>>))
    ensures
        r.1@.sending_end() == *s,
        r.1@.message() == msg,
{
    let sent = Ghost(Sent { to: *s, msg: msg });
    (s.send(msg), sent)
}

} // verus!
