//! A one-shot channel: one message, sent once and received once.
//!
//! The message lives in the channel. Splitting it hands out the one
//! [`Sender`] and the one [`Receiver`], which the send and receive calls
//! consume, so neither can be used twice.
use vstd::prelude::*;

verus! {

/// A slot for one message of type `T`.
pub struct Channel<T> {
    message: Option<T>,
}

/// The right to send the one message of a channel.
pub struct Sender {
    sealed: (),
}

/// The right to receive the one message of a channel.
pub struct Receiver {
    sealed: (),
}

impl<T> View for Channel<T> {
    type V = Option<T>;

    /// The message waiting in the channel, if any.
    closed spec fn view(&self) -> Option<T> {
        self.message
    }
}

impl<T> Channel<T> {
    /// An empty channel.
    pub fn new() -> (c: Self)
        ensures
            c@ is None,
    {
        Channel { message: None }
    }

    /// Empties the channel and returns its sender and receiver.
    pub fn split(&mut self) -> (r: (Sender, Receiver))
        ensures
            final(self)@ is None,
    {
        *self = Self::new();
        (Sender { sealed: () }, Receiver { sealed: () })
    }
}

impl Sender {
    /// Puts `message` in `channel`.
    pub fn send<T>(self, channel: &mut Channel<T>, message: T)
        ensures
            final(channel)@ == Some(message),
    {
        channel.message = Some(message);
    }
}

impl Receiver {
    /// Whether the message has arrived.
    pub fn is_ready<T>(&self, channel: &Channel<T>) -> (r: bool)
        ensures
            r == channel@ is Some,
    {
        channel.message.is_some()
    }

    /// Takes the message out of `channel`, which must hold it.
    pub fn receive<T>(self, channel: &mut Channel<T>) -> (r: T)
        requires
            old(channel)@ is Some,
        ensures
            Some(r) == old(channel)@,
            final(channel)@ is None,
    {
        channel.message.take().unwrap()
    }
}

} // verus!
