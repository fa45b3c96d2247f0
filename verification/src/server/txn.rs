//! A server's side of a transaction.
use crate::error::{unblocked, Error, IoError};
use crate::http;
use crate::http::h1::txn::{finishes, takes_bytes};
use crate::http::h1::{Decoder, Encoder, Ending, Heads, TxnIo};
use crate::http::{Http1Transaction, Io, MessageHead, TransactionHandler};
use vstd::prelude::*;

verus! {

/// Answers one request.
pub trait Handler {
    /// The message format of the server.
    type Transaction: Http1Transaction;

    /// What the server's connections are established over.
    type Transport;

    /// Called whenever the transaction may be able to go on. Gives back the transport.
    fn ready<'b>(
        &mut self,
        txn: &mut Transaction<'b, Self::Transaction>,
        transport: Self::Transport,
    ) -> Self::Transport;
}

/// The subject of the requests that a handler answers.
pub type Subject<H> = <<H as Handler>::Transaction as Http1Transaction>::Incoming;

/// Used to create a `Handler` when a new transaction is received by the server.
pub trait HandlerFactory {
    /// The `Handler` to use for the incoming transaction.
    type Output: Handler;

    /// Creates the associated `Handler`.
    fn create(&mut self, incoming: Result<MessageHead<Subject<Self::Output>>, Error>) -> Result<
        Self::Output,
        Error,
    >;
}

/// A `Handler` that is created when its request comes in. A transaction for which none can be
/// created is given up.
pub struct Created<F: HandlerFactory> {
    pub factory: F,
    pub handler: Option<F::Output>,
}

impl<F: HandlerFactory> Created<F> {
    /// A handler that has not been created yet.
    pub fn new(factory: F) -> (created: Created<F>)
        ensures
            created == (Created { factory: factory, handler: None }),
    {
        Created { factory: factory, handler: None }
    }
}

impl<F: HandlerFactory> Handler for Created<F> {
    type Transaction = <F::Output as Handler>::Transaction;

    type Transport = <F::Output as Handler>::Transport;

    fn ready<'b>(
        &mut self,
        txn: &mut Transaction<'b, Self::Transaction>,
        transport: Self::Transport,
    ) -> (out: Self::Transport)
        ensures
            match old(txn).inner.txn().heads.incoming {
                Some(incoming) => exists|f: &mut F, created: Result<F::Output, Error>|
                    {
                        let met = TxnIo {
                            heads: Heads { incoming: None, ..old(txn).inner.txn().heads },
                            ..old(txn).inner.txn()
                        };
                        &&& #[trigger] call_ensures(F::create, (f, incoming), created)
                        &&& *f == old(self).factory
                        &&& *final(f) == final(self).factory
                        &&& match created {
                            Ok(handler) => exists|
                                h: &mut F::Output,
                                t: &mut Transaction<'_, Self::Transaction>,
                            |
                                {
                                    &&& #[trigger] call_ensures(
                                        <F::Output as Handler>::ready,
                                        (h, t, transport),
                                        out,
                                    )
                                    &&& *h == handler
                                    &&& Some(*final(h)) == final(self).handler
                                    &&& (*t).inner.txn() == met
                                    &&& *final((*t).inner) == *final(old(txn).inner)
                                    &&& *final(t) == *final(txn)
                                },
                            Err(_) => {
                                &&& out == transport
                                &&& final(self).handler is None
                                &&& final(txn).inner.txn() == (TxnIo {
                                    state: met.state.aborted(),
                                    ..met
                                })
                                &&& *final(final(txn).inner) == *final(old(txn).inner)
                            },
                        }
                    },
                None => {
                    &&& final(self).factory == old(self).factory
                    &&& match old(self).handler {
                        Some(handler) => exists|
                            h: &mut F::Output,
                            t: &mut Transaction<'_, Self::Transaction>,
                        |
                            {
                                &&& #[trigger] call_ensures(
                                    <F::Output as Handler>::ready,
                                    (h, t, transport),
                                    out,
                                )
                                &&& *h == handler
                                &&& Some(*final(h)) == final(self).handler
                                &&& (*t).inner.txn() == old(txn).inner.txn()
                                &&& *final((*t).inner) == *final(old(txn).inner)
                                &&& *final(t) == *final(txn)
                            },
                        None => {
                            &&& out == transport
                            &&& final(self).handler is None
                            &&& final(txn).inner.txn() == (TxnIo {
                                state: old(txn).inner.txn().state.aborted(),
                                ..old(txn).inner.txn()
                            })
                            &&& *final(final(txn).inner) == *final(old(txn).inner)
                        },
                    }
                },
            },
    {
        if txn.inner.has_incoming() {
            let incoming = txn.inner.incoming();
            self.handler = match self.factory.create(incoming) {
                Ok(handler) => Some(handler),
                Err(_) => None,
            };
        }
        let mut taken = None;
        std::mem::swap(&mut taken, &mut self.handler);
        match taken {
            Some(handler) => {
                let mut handler = handler;
                let transport = handler.ready(txn, transport);
                self.handler = Some(handler);
                transport
            },
            None => {
                txn.inner.abort();
                transport
            },
        }
    }
}

/// A `TransactionHandler` for a Server.
///
/// This should be really thin glue between `http::TransactionHandler` and
/// `server::Handler`, but largely just providing the proper types one
/// would expect in a Server Handler.
pub struct Handle<H: Handler> {
    pub handler: H,
}

impl<H: Handler> Handle<H> {
    /// Lets a server's handler conduct a transaction.
    pub fn new(handler: H) -> (handle: Handle<H>)
        ensures
            handle.handler == handler,
    {
        Handle { handler: handler }
    }
}

impl<H: Handler> TransactionHandler for Handle<H> {
    type Transaction = H::Transaction;

    type Transport = H::Transport;

    fn ready(
        &mut self,
        txn: &mut http::Transaction<H::Transaction>,
        transport: H::Transport,
    ) -> (out: H::Transport)
        ensures
            exists|h: &mut H, t: &mut Transaction<'_, H::Transaction>|
                {
                    &&& #[trigger] call_ensures(H::ready, (h, t, transport), out)
                    &&& *h == old(self).handler
                    &&& *final(h) == final(self).handler
                    &&& *(*t).inner == *old(txn)
                    &&& *final((*t).inner) == *final(txn)
                    // Nothing happens to the transaction once the handler has given it back.
                    &&& *(*final(t)).inner == *final((*final(t)).inner)
                },
    {
        let mut outer = Transaction { inner: txn };
        self.handler.ready(&mut outer, transport)
    }
}

/// A transaction, as a server's handler sees it.
pub struct Transaction<'b, X: Http1Transaction> {
    pub inner: &'b mut http::Transaction<X>,
}

impl<'b, X: Http1Transaction> Transaction<'b, X> {
    /// Reads a piece of the request's body from `src` into `buf` by `decode`.
    pub fn read<
        T,
        B,
        F: FnOnce(Decoder<X::Decode>, Io, T, B) -> (
            Decoder<X::Decode>,
            Io,
            T,
            B,
            Result<usize, IoError>,
        ),
    >(&mut self, src: T, buf: B, decode: F) -> (out: (T, B, Result<usize, IoError>))
        requires
            !(old(self).inner.txn().state.reading is Init),
            !(old(self).inner.txn().state.reading is Parse),
            forall|decoder: Decoder<X::Decode>, io: Io| #[trigger]
                call_requires(decode, (decoder, io, src, buf)),
        ensures
            old(self).inner.txn().reads(src, buf, decode, final(self).inner.txn(), out),
            *final(final(self).inner) == *final(old(self).inner),
    {
        self.inner.read(src, buf, decode)
    }

    /// Reads a piece of the request's body from `src` into `buf` by `decode`, where `None` says
    /// that it would have had to wait.
    pub fn try_read<
        T,
        B,
        F: FnOnce(Decoder<X::Decode>, Io, T, B) -> (
            Decoder<X::Decode>,
            Io,
            T,
            B,
            Result<usize, IoError>,
        ),
    >(&mut self, src: T, buf: B, decode: F) -> (out: (T, B, Result<Option<usize>, IoError>))
        requires
            !(old(self).inner.txn().state.reading is Init),
            !(old(self).inner.txn().state.reading is Parse),
            forall|decoder: Decoder<X::Decode>, io: Io| #[trigger]
                call_requires(decode, (decoder, io, src, buf)),
        ensures
            exists|outcome: Result<usize, IoError>| #[trigger]
                old(self).inner.txn().reads(
                    src,
                    buf,
                    decode,
                    final(self).inner.txn(),
                    (out.0, out.1, outcome),
                ) && out.2 == unblocked(outcome),
            *final(final(self).inner) == *final(old(self).inner),
    {
        self.inner.try_read(src, buf, decode)
    }

    /// The head of the response, to set before anything is written.
    pub fn response(&mut self) -> (response: &mut MessageHead<X::Outgoing>)
        ensures
            *response == old(self).inner.txn().heads.outgoing,
            final(self).inner.txn() == (TxnIo {
                heads: Heads { outgoing: *final(response), ..old(self).inner.txn().heads },
                ..old(self).inner.txn()
            }),
            *final(final(self).inner) == *final(old(self).inner),
    {
        self.inner.outgoing()
    }

    /// Writes a piece of the response's body to `dst` by `encode`.
    pub fn write<
        T,
        F: FnOnce(Encoder<X::Encode>, T, &[u8]) -> (Encoder<X::Encode>, T, Result<usize, IoError>),
    >(&mut self, dst: T, data: &[u8], encode: F) -> (out: (T, Result<usize, IoError>))
        requires
            !(old(self).inner.txn().state.writing is Ending),
            forall|encoder: Encoder<X::Encode>| #[trigger]
                call_requires(encode, (encoder, dst, data)),
        ensures
            old(self).inner.txn().writes(dst, data, encode, final(self).inner.txn(), out),
            *final(final(self).inner) == *final(old(self).inner),
    {
        self.inner.write(dst, data, encode)
    }

    /// Writes a piece of the response's body to `dst` by `encode`, where `None` says that it would
    /// have had to wait.
    pub fn try_write<
        T,
        F: FnOnce(Encoder<X::Encode>, T, &[u8]) -> (Encoder<X::Encode>, T, Result<usize, IoError>),
    >(&mut self, dst: T, data: &[u8], encode: F) -> (out: (T, Result<Option<usize>, IoError>))
        requires
            !(old(self).inner.txn().state.writing is Ending),
            forall|encoder: Encoder<X::Encode>| #[trigger]
                call_requires(encode, (encoder, dst, data)),
        ensures
            exists|outcome: Result<usize, IoError>| #[trigger]
                old(self).inner.txn().writes(
                    dst,
                    data,
                    encode,
                    final(self).inner.txn(),
                    (out.0, outcome),
                ) && out.1 == unblocked(outcome),
            *final(final(self).inner) == *final(old(self).inner),
    {
        self.inner.try_write(dst, data, encode)
    }

    /// Ends the transaction: no more will be read, and the response is completed on `dst` by
    /// `finish` and `write`.
    pub fn end<
        T,
        F: FnOnce(Encoder<X::Encode>) -> Option<Ending>,
        W: Fn(T, &[u8]) -> (T, Result<usize, IoError>),
    >(&mut self, dst: T, finish: F, write: W) -> (out: T)
        requires
            finishes(finish),
            takes_bytes(write),
        ensures
            old(self).inner.txn().ends(dst, finish, write, final(self).inner.txn(), out),
            *final(final(self).inner) == *final(old(self).inner),
    {
        self.inner.end(dst, finish, write)
    }
}

} // verus!
