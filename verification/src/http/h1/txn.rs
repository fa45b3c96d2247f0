//! One request and its response.
use crate::error::{Async, Error, ErrorKind, IoError, Poll};
use crate::http::h1::{Decoder, Encoder};
use crate::http::conn::{TransactionHandler, TxnResult};
use crate::http::{
    Buffer, EncodedHead, Http1Transaction, Io, MessageHead, Transaction, TransactionImpl, WriteBuf,
};
use vstd::prelude::*;

verus! {

/// The bytes that complete a message.
pub type Ending = WriteBuf<Vec<u8>>;

/// How far the request has been received.
#[derive(Debug)]
pub enum Reading<D> {
    Init,
    Parse,
    Body(Decoder<D>),
    KeepAlive,
    Closed,
}

/// How far the response has been sent.
#[derive(Debug)]
pub enum Writing<E> {
    Init,
    Head,
    Body(Encoder<E>),
    Ending(Ending),
    KeepAlive,
    Closed,
}

/// How far a transaction has come, and whether the connection may outlive it.
#[derive(Debug)]
pub struct State<D, E> {
    pub keep_alive: bool,
    pub reading: Reading<D>,
    pub writing: Writing<E>,
}

/// The heads of the two messages of a transaction.
pub struct Heads<I, O> {
    pub incoming: Option<Result<MessageHead<I>, Error>>,
    pub outgoing: MessageHead<O>,
}

/// A transaction at work: its state, its heads, and the receiving end of its connection.
pub struct TxnIo<X: Http1Transaction> {
    pub io: Io,
    pub state: State<X::Decode, X::Encode>,
    pub heads: Heads<X::Incoming, X::Outgoing>,
}

/// A transaction, and the handler that conducts it.
pub struct Txn<H: TransactionHandler> {
    pub handler: H,
    pub state: State<
        <H::Transaction as Http1Transaction>::Decode,
        <H::Transaction as Http1Transaction>::Encode,
    >,
    pub heads: Heads<
        <H::Transaction as Http1Transaction>::Incoming,
        <H::Transaction as Http1Transaction>::Outgoing,
    >,
}

/// What a transaction starts from: a request's head and the decoder of its body, or the error that
/// came in their place.
pub type Incoming<X> = Result<
    (MessageHead<<X as Http1Transaction>::Incoming>, Decoder<<X as Http1Transaction>::Decode>),
    Error,
>;

impl<D, E> State<D, E> {
    /// Where reading is once the whole request has been received.
    pub open spec fn done_reading(self) -> Reading<D> {
        if self.keep_alive {
            Reading::KeepAlive
        } else {
            Reading::Closed
        }
    }

    /// Where writing is once the whole response has been sent.
    pub open spec fn done_writing(self) -> Writing<E> {
        if self.keep_alive {
            Writing::KeepAlive
        } else {
            Writing::Closed
        }
    }

    /// No head of the response has been written yet.
    pub open spec fn before_head(self) -> bool {
        self.writing is Init || self.writing is Head
    }

    /// The response is over: nothing more can be written to it.
    pub open spec fn wrote_all(self) -> bool {
        self.writing is KeepAlive || self.writing is Closed
    }

    /// The request is over: nothing more can be read from it.
    pub open spec fn read_all(self) -> bool {
        self.reading is KeepAlive || self.reading is Closed
    }

    /// The state in which a transaction starts, given the request's head and the decoder of its
    /// body, or the error that came in their place.
    pub open spec fn started<I>(incoming: Result<(MessageHead<I>, Decoder<D>), Error>) -> State<
        D,
        E,
    > {
        match incoming {
            Ok((head, body)) => State {
                keep_alive: head.lets_live(),
                reading: if !body.eof {
                    Reading::Body(body)
                } else if head.lets_live() {
                    Reading::KeepAlive
                } else {
                    Reading::Closed
                },
                writing: Writing::Init,
            },
            Err(_) => State { keep_alive: false, reading: Reading::Closed, writing: Writing::Init },
        }
    }

    /// The state once the body's decoder has come to stand at `decoder`.
    pub open spec fn after_read(self, decoder: Decoder<D>) -> State<D, E> {
        State {
            reading: if decoder.eof {
                self.done_reading()
            } else {
                Reading::Body(decoder)
            },
            ..self
        }
    }

    /// The state once the response's head has been handed to `encoder`. If the client wants to
    /// close, the server cannot stop it; if the client wants to stay alive, it depends on the
    /// server to agree.
    pub open spec fn after_head(self, agrees: bool, encoder: Encoder<E>) -> State<D, E> {
        State {
            keep_alive: self.keep_alive && agrees,
            writing: Writing::Body(encoder),
            ..self
        }
    }

    /// The state once the body's encoder has come to stand at `encoder`.
    pub open spec fn after_write(self, encoder: Encoder<E>) -> State<D, E> {
        State {
            writing: if encoder.complete() {
                self.done_writing()
            } else {
                Writing::Body(encoder)
            },
            ..self
        }
    }

    /// The state once the handler wants to read no more. A request of which a part is left unread
    /// costs the connection its life.
    pub open spec fn after_end_reading(self) -> State<D, E> {
        State {
            reading: match self.reading {
                Reading::Body(decoder) => if decoder.eof {
                    self.done_reading()
                } else {
                    Reading::Closed
                },
                Reading::KeepAlive => Reading::KeepAlive,
                _ => Reading::Closed,
            },
            ..self
        }
    }

    /// The state once the handler wants to write no more, where `last` is what was left to write
    /// of an incomplete response, and what became of it.
    pub open spec fn after_end_writing(self, last: Option<(Ending, Poll<(), IoError>)>) -> State<
        D,
        E,
    > {
        State {
            writing: match self.writing {
                Writing::Body(encoder) => if encoder.complete() {
                    self.done_writing()
                } else {
                    match last {
                        None => Writing::Closed,
                        Some((_, Ok(Async::Ready(_)))) => self.done_writing(),
                        Some((ending, Ok(Async::NotReady))) => Writing::Ending(ending),
                        Some((_, Err(_))) => Writing::Closed,
                    }
                },
                other => other,
            },
            ..self
        }
    }

    /// The state once the transaction was given up.
    pub open spec fn aborted(self) -> State<D, E> {
        State { reading: Reading::Closed, writing: Writing::Closed, ..self }
    }

    /// What the state says of the transaction: whether it is over, and if so whether the
    /// connection may be used again.
    pub open spec fn outcome(self) -> Async<TxnResult> {
        if self.read_all() && self.wrote_all() {
            if self.reading is KeepAlive && self.writing is KeepAlive {
                Async::Ready(TxnResult::KeepAlive)
            } else {
                Async::Ready(TxnResult::Close)
            }
        } else {
            Async::NotReady
        }
    }
}

impl<H: TransactionHandler> Txn<H> {
    /// The transaction has just started on this request, or on this error, with this handler.
    pub open spec fn starts(self, incoming: Incoming<H::Transaction>, handler: H) -> bool {
        &&& self.handler == handler
        &&& self.state == State::<
            <H::Transaction as Http1Transaction>::Decode,
            <H::Transaction as Http1Transaction>::Encode,
        >::started(incoming)
        &&& self.heads.incoming == Some(
            match incoming {
                Ok((head, _)) => Ok::<
                    MessageHead<<H::Transaction as Http1Transaction>::Incoming>,
                    Error,
                >(head),
                Err(e) => Err(e),
            },
        )
        &&& self.heads.outgoing.is_default()
    }

    /// The transaction at work on a connection.
    pub open spec fn at_work(self, io: Io) -> Transaction<H::Transaction> {
        Transaction {
            inner: TransactionImpl::H1(TxnIo { io: io, state: self.state, heads: self.heads }),
        }
    }

    /// Starts the transaction of a request, or of the error that came in its place.
    pub fn incoming(incoming: Incoming<H::Transaction>, handler: H) -> (txn: Txn<H>)
        ensures
            txn.starts(incoming, handler),
    {
        let (head, body, keep_alive) = match incoming {
            Ok((head, body)) => {
                let keep_alive = head.should_keep_alive();
                let reading = if body.is_eof() {
                    if keep_alive {
                        Reading::KeepAlive
                    } else {
                        Reading::Closed
                    }
                } else {
                    Reading::Body(body)
                };
                (Ok(head), reading, keep_alive)
            },
            Err(e) => (Err(e), Reading::Closed, false),
        };
        Txn {
            handler: handler,
            state: State { keep_alive: keep_alive, reading: body, writing: Writing::Init },
            heads: Heads { incoming: Some(head), outgoing: MessageHead::default() },
        }
    }

    /// Lets the handler go on, and says whether the transaction is over. The transport is handed to
    /// the handler, and is given back as the handler gave it back.
    pub fn tick(self, io: Io, transport: H::Transport) -> (out: (
        Txn<H>,
        Io,
        H::Transport,
        Async<TxnResult>,
    ))
        ensures
            exists|h: &mut H, t: &mut Transaction<H::Transaction>|
                {
                    &&& #[trigger] call_ensures(H::ready, (h, t, transport), out.2)
                    &&& *h == self.handler
                    &&& *t == self.at_work(io)
                    &&& *final(h) == out.0.handler
                    &&& *final(t) == out.0.at_work(out.1)
                },
            out.3 == out.0.state.outcome(),
    {
        let mut handler = self.handler;
        let mut txn = Transaction::h1(TxnIo { io: io, state: self.state, heads: self.heads });
        let transport = handler.ready(&mut txn, transport);
        let TxnIo { io, state, heads } = match txn.inner {
            TransactionImpl::H1(txn) => txn,
        };
        let outcome = match (&state.reading, &state.writing) {
            (Reading::KeepAlive, Writing::KeepAlive) => Async::Ready(TxnResult::KeepAlive),
            (Reading::KeepAlive, Writing::Closed)
            | (Reading::Closed, Writing::KeepAlive)
            | (Reading::Closed, Writing::Closed) => Async::Ready(TxnResult::Close),
            _ => Async::NotReady,
        };
        let out = (Txn { handler: handler, state: state, heads: heads }, io, transport, outcome);
        assert(out.2 == transport);
        out
    }
}

/// Writes the response's head: what the head says of the connection is taken in, and the head's
/// bytes are set to go out in front of the body.
pub fn write_head<X: Http1Transaction>(
    state: &mut State<X::Decode, X::Encode>,
    head: &mut MessageHead<X::Outgoing>,
)
    requires
        old(state).before_head(),
    ensures
        exists|encoded: EncodedHead<X::Outgoing, X::Encode>|
            {
                &&& #[trigger] call_ensures(X::encode, (&*old(head),), encoded)
                &&& *final(head) == encoded.head
                &&& *final(state) == old(state).after_head(
                    old(head).lets_live(),
                    encoded.encoder.prefixed(WriteBuf { bytes: encoded.bytes, pos: 0 }),
                )
            },
{
    // if the client wants to close, server cannot stop it
    if state.keep_alive {
        // if the client wants to stay alive, then it depends
        // on the server to agree
        state.keep_alive = head.should_keep_alive();
    }
    let encoded = X::encode(head);
    let mut encoder = encoded.encoder;
    encoder.prefix(WriteBuf::new(encoded.bytes));
    *head = encoded.head;
    state.writing = Writing::Body(encoder);
}

impl<X: Http1Transaction> TxnIo<X> {
    /// `after` is this transaction with the response's head written, if it had not been before.
    pub open spec fn head_written(self, after: TxnIo<X>) -> bool {
        if self.state.before_head() {
            exists|encoded: EncodedHead<X::Outgoing, X::Encode>|
                {
                    &&& #[trigger] call_ensures(X::encode, (&self.heads.outgoing,), encoded)
                    &&& after == TxnIo {
                        state: self.state.after_head(
                            self.heads.outgoing.lets_live(),
                            encoded.encoder.prefixed(WriteBuf { bytes: encoded.bytes, pos: 0 }),
                        ),
                        heads: Heads { outgoing: encoded.head, ..self.heads },
                        ..self
                    }
                }
        } else {
            after == self
        }
    }

    /// Writing `data` to `dst` by `encode` makes this transaction into `after` and gives `out`: the
    /// destination and the result. The destination of a response that is over is left alone.
    pub open spec fn writes<
        T,
        F: FnOnce(Encoder<X::Encode>, T, &[u8]) -> (Encoder<X::Encode>, T, Result<usize, IoError>),
    >(
        self,
        dst: T,
        data: &[u8],
        encode: F,
        after: TxnIo<X>,
        out: (T, Result<usize, IoError>),
    ) -> bool {
        if self.state.wrote_all() {
            out == (dst, Ok::<usize, IoError>(0)) && after == self
        } else {
            exists|mid: TxnIo<X>, encoder: Encoder<X::Encode>|
                {
                    &&& #[trigger] self.head_written(mid)
                    &&& #[trigger] call_ensures(
                        encode,
                        (mid.state.writing->Body_0, dst, data),
                        (encoder, out.0, out.1),
                    )
                    &&& after == TxnIo { state: mid.state.after_write(encoder), ..mid }
                }
        }
    }

    /// Reading from `src` into `buf` by `decode` makes this transaction into `after` and gives
    /// `out`: the source, the buffer and the result. The source and the buffer of a request that is
    /// over are left alone.
    pub open spec fn reads<
        T,
        B,
        F: FnOnce(Decoder<X::Decode>, Io, T, B) -> (
            Decoder<X::Decode>,
            Io,
            T,
            B,
            Result<usize, IoError>,
        ),
    >(
        self,
        src: T,
        buf: B,
        decode: F,
        after: TxnIo<X>,
        out: (T, B, Result<usize, IoError>),
    ) -> bool {
        match self.state.reading {
            Reading::Body(body) => exists|decoder: Decoder<X::Decode>, io: Io|
                {
                    &&& #[trigger] call_ensures(
                        decode,
                        (body, self.io, src, buf),
                        (decoder, io, out.0, out.1, out.2),
                    )
                    &&& after == TxnIo { io: io, state: self.state.after_read(decoder), ..self }
                },
            _ => out == (src, buf, Ok::<usize, IoError>(0)) && after == self,
        }
    }

    /// Ending the response on `dst` by `finish` and `write` makes this transaction into `after` and
    /// the destination into `out`. The destination is left alone unless `finish` gave an ending.
    pub open spec fn ends_writing<
        T,
        F: FnOnce(Encoder<X::Encode>) -> Option<Ending>,
        W: Fn(T, &[u8]) -> (T, Result<usize, IoError>),
    >(self, dst: T, finish: F, write: W, after: TxnIo<X>, out: T) -> bool {
        exists|mid: TxnIo<X>, last: Option<(Ending, Poll<(), IoError>)>|
            {
                &&& #[trigger] self.head_written(mid)
                &&& after == TxnIo {
                    state: #[trigger] mid.state.after_end_writing(last),
                    ..mid
                }
                &&& match mid.state.writing {
                    Writing::Body(encoder) if !encoder.complete() => match last {
                        None => out == dst && call_ensures(finish, (encoder,), None::<Ending>),
                        Some((ending, res)) => exists|before: Ending|
                            {
                                &&& #[trigger] call_ensures(finish, (encoder,), Some(before))
                                &&& flushes(write, before, dst, ending, out, res)
                            },
                    },
                    _ => out == dst,
                }
            }
    }

    /// Ending both ways, on `dst` by `finish` and `write`, makes this transaction into `after` and
    /// the destination into `out`.
    pub open spec fn ends<
        T,
        F: FnOnce(Encoder<X::Encode>) -> Option<Ending>,
        W: Fn(T, &[u8]) -> (T, Result<usize, IoError>),
    >(self, dst: T, finish: F, write: W, after: TxnIo<X>, out: T) -> bool {
        (TxnIo { state: self.state.after_end_reading(), ..self }).ends_writing(
            dst,
            finish,
            write,
            after,
            out,
        )
    }

    /// The request's head, or the error that came in its place. It can be had once.
    pub fn incoming(&mut self) -> (incoming: Result<MessageHead<X::Incoming>, Error>)
        requires
            old(self).heads.incoming is Some,
        ensures
            Some(incoming) == old(self).heads.incoming,
            *final(self) == (TxnIo {
                heads: Heads { incoming: None, ..old(self).heads },
                ..*old(self)
            }),
    {
        self.heads.incoming.take().unwrap()
    }

    /// The response's head, to set before anything is written.
    pub fn outgoing(&mut self) -> (outgoing: &mut MessageHead<X::Outgoing>)
        ensures
            *outgoing == old(self).heads.outgoing,
            *final(self) == (TxnIo {
                heads: Heads { outgoing: *final(outgoing), ..old(self).heads },
                ..*old(self)
            }),
    {
        &mut self.heads.outgoing
    }

    /// Writes a piece of the response's body to `dst` by `encode`, after the head if that had not
    /// been written yet.
    pub fn write<
        T,
        F: FnOnce(Encoder<X::Encode>, T, &[u8]) -> (Encoder<X::Encode>, T, Result<usize, IoError>),
    >(&mut self, dst: T, data: &[u8], encode: F) -> (out: (T, Result<usize, IoError>))
        requires
            !(old(self).state.writing is Ending),
            forall|encoder: Encoder<X::Encode>| #[trigger]
                call_requires(encode, (encoder, dst, data)),
        ensures
            old(self).writes(dst, data, encode, *final(self), out),
    {
        match self.state.writing {
            Writing::Init | Writing::Head => {
                write_head::<X>(&mut self.state, &mut self.heads.outgoing);
            },
            _ => {},
        }
        let ghost mid = *self;
        assert(old(self).head_written(mid));
        let mut writing = Writing::Closed;
        std::mem::swap(&mut writing, &mut self.state.writing);
        match writing {
            Writing::Body(encoder) => {
                let (encoder, dst, res) = encode(encoder, dst, data);
                self.state.writing = if encoder.is_eof() {
                    if self.state.keep_alive {
                        Writing::KeepAlive
                    } else {
                        Writing::Closed
                    }
                } else {
                    Writing::Body(encoder)
                };
                (dst, res)
            },
            other => {
                self.state.writing = other;
                (dst, Ok(0))
            },
        }
    }

    /// Reads a piece of the request's body from `src` into `buf` by `decode`.
    pub fn read<
        T,
        B,
        F: FnOnce(Decoder<X::Decode>, Io, T, B) -> (
            Decoder<X::Decode>,
            Io,
            T,
            B,
            Result<usize, IoError>,
        ),
    >(&mut self, src: T, buf: B, decode: F) -> (out: (T, B, Result<usize, IoError>))
        requires
            !(old(self).state.reading is Init),
            !(old(self).state.reading is Parse),
            forall|decoder: Decoder<X::Decode>, io: Io| #[trigger]
                call_requires(decode, (decoder, io, src, buf)),
        ensures
            old(self).reads(src, buf, decode, *final(self), out),
    {
        let mut reading = Reading::Closed;
        std::mem::swap(&mut reading, &mut self.state.reading);
        match reading {
            Reading::Body(decoder) => {
                let mut io = Io { buf: Buffer::new() };
                std::mem::swap(&mut io, &mut self.io);
                let (decoder, io, src, buf, res) = decode(decoder, io, src, buf);
                self.io = io;
                self.state.reading = if decoder.is_eof() {
                    if self.state.keep_alive {
                        Reading::KeepAlive
                    } else {
                        Reading::Closed
                    }
                } else {
                    Reading::Body(decoder)
                };
                (src, buf, res)
            },
            other => {
                self.state.reading = other;
                (src, buf, Ok(0))
            },
        }
    }

    /// Ends the transaction: no more will be read, and the response is completed on `dst` by
    /// `finish` and `write`.
    pub fn end<
        T,
        F: FnOnce(Encoder<X::Encode>) -> Option<Ending>,
        W: Fn(T, &[u8]) -> (T, Result<usize, IoError>),
    >(&mut self, dst: T, finish: F, write: W) -> (out: T)
        requires
            finishes(finish),
            takes_bytes(write),
        ensures
            old(self).ends(dst, finish, write, *final(self), out),
    {
        self.end_reading();
        self.end_writing(dst, finish, write)
    }

    /// Ends the request: no more will be read of it.
    pub fn end_reading(&mut self)
        ensures
            *final(self) == (TxnIo { state: old(self).state.after_end_reading(), ..*old(self) }),
    {
        self.state.reading = match &self.state.reading {
            Reading::Body(decoder) if decoder.is_eof() => {
                if self.state.keep_alive {
                    Reading::KeepAlive
                } else {
                    Reading::Closed
                }
            },
            Reading::KeepAlive => Reading::KeepAlive,
            _ => Reading::Closed,
        };
    }

    /// Ends the response: its head is written if it had not been, and what an incomplete body
    /// needs to be complete is written to `dst` after it.
    pub fn end_writing<
        T,
        F: FnOnce(Encoder<X::Encode>) -> Option<Ending>,
        W: Fn(T, &[u8]) -> (T, Result<usize, IoError>),
    >(&mut self, dst: T, finish: F, write: W) -> (out: T)
        requires
            finishes(finish),
            takes_bytes(write),
        ensures
            old(self).ends_writing(dst, finish, write, *final(self), out),
    {
        match self.state.writing {
            Writing::Init | Writing::Head => {
                write_head::<X>(&mut self.state, &mut self.heads.outgoing);
            },
            _ => {},
        }
        let ghost mid = *self;
        let ghost mut last: Option<(Ending, Poll<(), IoError>)> = None;
        assert(old(self).head_written(mid));
        let mut writing = Writing::Closed;
        std::mem::swap(&mut writing, &mut self.state.writing);
        let (writing, out) = match writing {
            Writing::Body(encoder) => {
                if encoder.is_eof() {
                    if self.state.keep_alive {
                        (Writing::KeepAlive, dst)
                    } else {
                        (Writing::Closed, dst)
                    }
                } else {
                    match finish(encoder) {
                        Some(ending) => {
                            let mut ending = ending;
                            let (out, res) = write_ending(&mut ending, dst, write);
                            proof {
                                last = Some((ending, res));
                            }
                            let writing = match res {
                                Ok(Async::Ready(())) => if self.state.keep_alive {
                                    Writing::KeepAlive
                                } else {
                                    Writing::Closed
                                },
                                Ok(Async::NotReady) => Writing::Ending(ending),
                                Err(_) => Writing::Closed,
                            };
                            (writing, out)
                        },
                        None => (Writing::Closed, dst),
                    }
                }
            },
            other => (other, dst),
        };
        self.state.writing = writing;
        assert(*self == TxnIo { state: mid.state.after_end_writing(last), ..mid });
        out
    }

    /// Gives the transaction up, both ways.
    pub fn abort(&mut self)
        ensures
            *final(self) == (TxnIo { state: old(self).state.aborted(), ..*old(self) }),
    {
        self.state.reading = Reading::Closed;
        self.state.writing = Writing::Closed;
    }
}

/// `finish` completes a body: it may be called on any encoder, and gives back a buffer of which
/// no more has gone than there was.
pub open spec fn finishes<E, F: FnOnce(Encoder<E>) -> Option<Ending>>(finish: F) -> bool {
    &&& forall|encoder: Encoder<E>| #[trigger] call_requires(finish, (encoder,))
    &&& forall|encoder: Encoder<E>, ending: Ending| #[trigger]
        call_ensures(finish, (encoder,), Some(ending)) ==> ending.wf()
}

/// How many bytes a log of write results says were taken.
pub open spec fn taken(log: Seq<Result<usize, IoError>>) -> nat
    decreases log.len(),
{
    if log.len() == 0 {
        0
    } else {
        taken(log.drop_last()) + match log.last() {
            Ok(n) => n as nat,
            Err(_) => 0,
        }
    }
}

/// `write` was offered exactly these bytes for `dst`, made it into `out` and gave this result.
pub open spec fn offered<T, W: Fn(T, &[u8]) -> (T, Result<usize, IoError>)>(
    write: W,
    dst: T,
    bytes: Seq<u8>,
    out: T,
    result: Result<usize, IoError>,
) -> bool {
    exists|x: &[u8]| #[trigger] call_ensures(write, (dst, x), (out, result)) && x@ == bytes
}

/// The log of writing out a buffer, and where the destination stood in front of each write and
/// after the last: each time `write` was offered all that had not been taken yet; it was called
/// again as long as it took some and left some; and the last call decided what became of it.
pub open spec fn flush_log<T, W: Fn(T, &[u8]) -> (T, Result<usize, IoError>)>(
    write: W,
    before: Ending,
    log: Seq<Result<usize, IoError>>,
    ports: Seq<T>,
    after: Ending,
    res: Poll<(), IoError>,
) -> bool {
    &&& log.len() > 0
    &&& ports.len() == log.len() + 1
    &&& forall|i: int|
        0 <= i < log.len() ==> offered(
            write,
            ports[i],
            before.bytes@.skip(before.pos + taken(#[trigger] log.take(i))),
            ports[i + 1],
            log[i],
        )
    &&& forall|i: int| 0 <= i < log.len() - 1 ==> (#[trigger] log[i]) is Ok
    &&& forall|i: int|
        0 < i < log.len() ==> before.pos + taken(#[trigger] log.take(i)) < before.bytes@.len()
    &&& after.bytes == before.bytes
    &&& after.pos == before.pos + taken(log)
    &&& match log.last() {
        Ok(_) => after.pos >= after.bytes@.len() && res == Ok::<Async<()>, IoError>(
            Async::Ready(()),
        ),
        Err(e) => if e.kind == ErrorKind::WouldBlock {
            res == Ok::<Async<()>, IoError>(Async::NotReady)
        } else {
            res == Err::<Async<()>, IoError>(e)
        },
    }
}

/// Writing out `before` to `dst` by `write` leaves `after`, makes the destination into `out` and
/// gives `res`. There are no other writes than those of the log.
pub open spec fn flushes<T, W: Fn(T, &[u8]) -> (T, Result<usize, IoError>)>(
    write: W,
    before: Ending,
    dst: T,
    after: Ending,
    out: T,
    res: Poll<(), IoError>,
) -> bool {
    exists|log: Seq<Result<usize, IoError>>, ports: Seq<T>|
        {
            &&& #[trigger] flush_log(write, before, log, ports, after, res)
            &&& ports.first() == dst
            &&& ports.last() == out
        }
}

/// `write` takes bytes as a transport does: it may be called on any bytes, takes no more than it
/// is offered, and where it neither fails nor is offered nothing it takes something.
pub open spec fn takes_bytes<T, W: Fn(T, &[u8]) -> (T, Result<usize, IoError>)>(write: W) -> bool {
    &&& forall|t: T, x: &[u8]| #[trigger] call_requires(write, (t, x))
    &&& forall|t: T, x: &[u8], out: T, n: usize| #[trigger]
        call_ensures(write, (t, x), (out, Ok::<usize, IoError>(n))) ==> n <= x@.len() && (x@.len()
            > 0 ==> n > 0)
}

/// Writes out an ending to `dst` until it is gone, or the transport would block, or it fails.
pub fn write_ending<T, W: Fn(T, &[u8]) -> (T, Result<usize, IoError>)>(
    ending: &mut Ending,
    dst: T,
    write: W,
) -> (out: (T, Poll<(), IoError>))
    requires
        old(ending).wf(),
        takes_bytes(write),
    ensures
        final(ending).wf(),
        flushes(write, *old(ending), dst, *final(ending), out.0, out.1),
{
    let mut port = dst;
    let ghost mut log: Seq<Result<usize, IoError>> = seq![];
    let ghost mut ports: Seq<T> = seq![dst];
    loop
        invariant
            takes_bytes(write),
            ending.wf(),
            ending.bytes == old(ending).bytes,
            ending.pos == old(ending).pos + taken(log),
            ports.len() == log.len() + 1,
            ports.first() == dst,
            ports.last() == port,
            forall|i: int|
                0 <= i < log.len() ==> offered(
                    write,
                    ports[i],
                    old(ending).bytes@.skip(old(ending).pos + taken(#[trigger] log.take(i))),
                    ports[i + 1],
                    log[i],
                ),
            forall|i: int| 0 <= i < log.len() ==> (#[trigger] log[i]) is Ok,
            forall|i: int|
                0 < i <= log.len() ==> old(ending).pos + taken(#[trigger] log.take(i)) < old(
                    ending,
                ).bytes@.len(),
        decreases ending.bytes@.len() - ending.pos,
    {
        let ghost before = log;
        let ghost stood = ports;
        let rest = ending.unwritten();
        let (next, result) = write(port, rest);
        port = next;
        proof {
            log = before.push(result);
            ports = stood.push(port);
            assert(log.take(log.len() as int) =~= log);
            assert(log.drop_last() =~= before);
            assert forall|i: int| 0 <= i < log.len() implies offered(
                write,
                ports[i],
                old(ending).bytes@.skip(old(ending).pos + taken(#[trigger] log.take(i))),
                ports[i + 1],
                log[i],
            ) by {
                assert(log.take(i) =~= before.take(i));
            }
            assert forall|i: int| 0 < i <= before.len() implies old(ending).pos + taken(
                #[trigger] log.take(i),
            ) < old(ending).bytes@.len() by {
                assert(log.take(i) =~= before.take(i));
            }
        }
        match result {
            Ok(n) => {
                assert(ending.pos + n <= ending.bytes.len());
                ending.pos = ending.pos + n;
                if ending.is_written() {
                    assert(flush_log(write, *old(ending), log, ports, *ending, Ok(Async::Ready(()))));
                    return (port, Ok(Async::Ready(())));
                }
            },
            Err(e) => match e.kind {
                ErrorKind::WouldBlock => {
                    assert(flush_log(write, *old(ending), log, ports, *ending, Ok(Async::NotReady)));
                    return (port, Ok(Async::NotReady));
                },
                _ => {
                    assert(flush_log(write, *old(ending), log, ports, *ending, Err(e)));
                    return (port, Err(e));
                },
            },
        }
    }
}

} // verus!
