//! HTTP/1 messages.
use crate::http::WriteBuf;
use vstd::prelude::*;

pub mod effects;
pub mod laws;
pub mod txn;

pub use crate::http::h1::txn::{Ending, Heads, Incoming, Reading, State, Txn, TxnIo, Writing};

verus! {

/// A decoder of one message body.
///
/// The codec that takes the transfer coding off is carried along untouched. What the protocol
/// goes by is whether the end of the body has been reached.
#[derive(Debug)]
pub struct Decoder<D> {
    pub codec: D,
    pub eof: bool,
}

impl<D> Decoder<D> {
    /// Whether the end of the body has been reached.
    pub fn is_eof(&self) -> (eof: bool)
        ensures
            eof == self.eof,
    {
        self.eof
    }
}

/// An encoder of one message body.
///
/// The codec that puts the transfer coding on is carried along untouched. What the protocol goes
/// by is whether the end of the body has been reached, whether the body was closed, and which
/// bytes still have to go out in front of the body.
#[derive(Debug)]
pub struct Encoder<E> {
    pub codec: E,
    pub eof: bool,
    pub closed: bool,
    pub prefix: Option<WriteBuf<Vec<u8>>>,
}

impl<E> Encoder<E> {
    /// The encoder with bytes to send in front of the body.
    pub open spec fn prefixed(self, prefix: WriteBuf<Vec<u8>>) -> Encoder<E> {
        Encoder { prefix: Some(prefix), ..self }
    }

    /// Whether the message is complete: the body has reached its end, and nothing is left to send
    /// in front of it.
    pub open spec fn complete(self) -> bool {
        self.eof && self.prefix is None
    }

    /// Sets the bytes to send in front of the body.
    pub fn prefix(&mut self, prefix: WriteBuf<Vec<u8>>)
        ensures
            *final(self) == old(self).prefixed(prefix),
    {
        self.prefix = Some(prefix);
    }

    /// Whether the message is complete.
    pub fn is_eof(&self) -> (eof: bool)
        ensures
            eof == self.complete(),
    {
        self.eof && self.prefix.is_none()
    }

    /// Whether the body was closed.
    pub fn is_closed(&self) -> (closed: bool)
        ensures
            closed == self.closed,
    {
        self.closed
    }

    /// Closes the body: nothing more will be written to it.
    pub fn close(&mut self)
        ensures
            *final(self) == (Encoder { closed: true, ..*old(self) }),
    {
        self.closed = true;
    }
}

} // verus!
