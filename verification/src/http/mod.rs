//! Pieces pertaining to the HTTP message protocol.
use crate::error::{nonblocking, unblocked, Error, ErrorKind, IoError};
use crate::header::{ConnectionOption, Headers};
use crate::version::HttpVersion;
use vstd::prelude::*;

pub mod body;
pub mod conn;
pub mod conn_effects;
pub mod effects;
pub mod h1;
pub mod laws;

pub use crate::http::body::{BufReader, Decoder, Encoder, Trans};
pub use crate::http::conn::{
    Conn, ConnectionHandler, ConnectionHandlerFactory, Key, Seed, TransactionHandler,
};

use crate::http::h1::txn::{finishes, takes_bytes};
use crate::http::h1::{Ending, Heads, TxnIo};

verus! {

/// Bytes on their way to a transport, and how many of them have gone.
#[derive(Debug, Clone)]
pub struct WriteBuf<T> {
    pub bytes: T,
    pub pos: usize,
}

impl<T> WriteBuf<T> {
    /// A buffer of which nothing has gone yet.
    pub fn new(bytes: T) -> (buf: WriteBuf<T>)
        ensures
            buf == (WriteBuf { bytes: bytes, pos: 0 }),
    {
        WriteBuf { bytes: bytes, pos: 0 }
    }
}

impl WriteBuf<Vec<u8>> {
    /// No more has gone than there was.
    pub open spec fn wf(self) -> bool {
        self.pos <= self.bytes@.len()
    }

    /// What has not gone yet.
    pub open spec fn rest(self) -> Seq<u8> {
        self.bytes@.skip(self.pos as int)
    }

    /// Whether everything has gone.
    pub fn is_written(&self) -> (done: bool)
        ensures
            done == (self.pos >= self.bytes@.len()),
    {
        self.pos >= self.bytes.len()
    }

    /// What has not gone yet.
    pub fn unwritten(&self) -> (rest: &[u8])
        requires
            self.wf(),
        ensures
            rest@ == self.rest(),
    {
        let rest = vstd::slice::slice_subrange(self.bytes.as_slice(), self.pos, self.bytes.len());
        rest
    }
}

/// The head of a message: its request or status line, and its headers.
#[derive(Debug)]
pub struct MessageHead<S> {
    /// HTTP version of the message.
    pub version: HttpVersion,
    /// Subject (request line or status line) of the message.
    pub subject: S,
    /// Headers of the message.
    pub headers: Headers,
}

impl<S> MessageHead<S> {
    /// Whether the message lets the connection live on.
    pub open spec fn lets_live(self) -> bool {
        lets_live(self.version, self.headers)
    }

    /// Checks if the connection should be kept alive after this message.
    pub fn should_keep_alive(&self) -> (ret: bool)
        ensures
            ret == self.lets_live(),
    {
        should_keep_alive(self.version, &self.headers)
    }
}

impl<S: Default> MessageHead<S> {
    /// A head that nothing was set in yet: HTTP/1.1, no headers, and the subject's own default.
    pub open spec fn is_default(self) -> bool {
        &&& self.version == HttpVersion::Http11
        &&& self.headers.connection is None
        &&& self.headers.raw@ == Seq::<(String, Vec<u8>)>::empty()
        &&& call_ensures(S::default, (), self.subject)
    }
}

impl<S: Default> Default for MessageHead<S> {
    fn default() -> (head: MessageHead<S>)
        ensures
            head.is_default(),
    {
        MessageHead { version: HttpVersion::default(), subject: S::default(), headers: Headers::default() }
    }
}

/// Whether a message of this version with these headers lets the connection live on.
///
/// HTTP/1.0 connections close unless `keep-alive` is asked for; HTTP/1.1 connections live on
/// unless `close` is.
pub open spec fn lets_live(version: HttpVersion, headers: Headers) -> bool {
    match version {
        HttpVersion::Http10 => headers.connection_has(ConnectionOption::KeepAlive),
        HttpVersion::Http11 => !headers.connection_has(ConnectionOption::Close),
        _ => true,
    }
}

/// Checks if a connection should be kept alive.
pub fn should_keep_alive(version: HttpVersion, headers: &Headers) -> (ret: bool)
    ensures
        ret == lets_live(version, *headers),
{
    match (version, headers.get()) {
        (HttpVersion::Http10, None) => false,
        (HttpVersion::Http10, Some(conn)) if !conn.contains_keep_alive() => false,
        (HttpVersion::Http11, Some(conn)) if conn.contains_close() => false,
        _ => true,
    }
}

/// The subject of a request: its method and its target.
#[derive(Debug)]
pub struct RequestLine(pub String, pub String);

/// An incoming request message.
pub type RequestHead = MessageHead<RequestLine>;

impl RequestLine {
    /// The method and the target, with a space between.
    pub fn to_string(&self) -> (text: String)
        ensures
            text@ == self.0@ + " "@ + self.1@,
    {
        let mut text = String::new();
        text.append(self.0.as_str());
        text.append(" ");
        text.append(self.1.as_str());
        text
    }
}

/// The raw status code and reason-phrase.
#[derive(Clone, PartialEq, Debug)]
pub struct RawStatus(pub u16, pub String);

/// An incoming response message.
pub type ResponseHead = MessageHead<RawStatus>;

impl RawStatus {
    /// The status of a code with its canonical reason, or with none where it has none.
    pub fn from_status(code: u16, canonical_reason: Option<&str>) -> (status: RawStatus)
        ensures
            status.0 == code,
            status.1@ == match canonical_reason {
                Some(reason) => reason@,
                None => Seq::<char>::empty(),
            },
    {
        match canonical_reason {
            Some(reason) => RawStatus(code, reason.to_owned()),
            None => RawStatus(code, String::new()),
        }
    }

    /// The code and the reason, with a space between.
    pub fn to_string(&self) -> (text: String)
        ensures
            text@ == decimal(self.0) + " "@ + self.1@,
    {
        let mut text = to_decimal(self.0);
        text.append(" ");
        text.append(self.1.as_str());
        text
    }
}

impl Default for RawStatus {
    fn default() -> (status: RawStatus)
        ensures
            status.0 == 200,
            status.1@ == "OK"@,
    {
        RawStatus(200, "OK".to_owned())
    }
}

/// A decimal digit.
pub open spec fn digit(n: u16) -> Seq<char> {
    match n {
        0 => "0"@,
        1 => "1"@,
        2 => "2"@,
        3 => "3"@,
        4 => "4"@,
        5 => "5"@,
        6 => "6"@,
        7 => "7"@,
        8 => "8"@,
        _ => "9"@,
    }
}

/// A number in decimal, without leading zeros.
pub open spec fn decimal(n: u16) -> Seq<char>
    decreases n,
{
    if n < 10 {
        digit(n)
    } else {
        decimal(n / 10) + digit(n % 10)
    }
}

/// Writes a number in decimal.
pub fn to_decimal(n: u16) -> (text: String)
    ensures
        text@ == decimal(n),
    decreases n,
{
    let mut text = if n < 10 {
        String::new()
    } else {
        to_decimal(n / 10)
    };
    let last = match n % 10 {
        0 => "0",
        1 => "1",
        2 => "2",
        3 => "3",
        4 => "4",
        5 => "5",
        6 => "6",
        7 => "7",
        8 => "8",
        _ => "9",
    };
    text.append(last);
    text
}

/// Pieces of bytes put together.
pub open spec fn concatenated(pieces: Seq<&[u8]>) -> Seq<u8>
    decreases pieces.len(),
{
    if pieces.len() == 0 {
        Seq::empty()
    } else {
        concatenated(pieces.drop_last()) + pieces.last()@
    }
}

/// Writes several pieces to `dst` as one, by a single call of `write`.
pub fn write_atomic<T, W: FnOnce(T, &[u8]) -> (T, Result<usize, IoError>)>(
    dst: T,
    write: W,
    bufs: &[&[u8]],
) -> (out: (T, Result<usize, IoError>))
    requires
        forall|x: &[u8]| #[trigger] call_requires(write, (dst, x)),
    ensures
        exists|x: &[u8]| #[trigger]
            call_ensures(write, (dst, x), out) && x@ == concatenated(bufs@),
{
    let mut vec: Vec<u8> = Vec::new();
    let mut i: usize = 0;
    while i < bufs.len()
        invariant
            i <= bufs@.len(),
            vec@ == concatenated(bufs@.take(i as int)),
        decreases bufs@.len() - i,
    {
        vec.extend_from_slice(bufs[i]);
        i = i + 1;
        assert(bufs@.take(i as int).drop_last() =~= bufs@.take(i - 1));
    }
    assert(bufs@.take(bufs@.len() as int) =~= bufs@);
    write(dst, vec.as_slice())
}

/// What a parser makes of the bytes received so far: a head and how many bytes it took, nothing
/// yet, or an error.
pub type ParseResult<I> = Result<Option<(MessageHead<I>, usize)>, Error>;

/// A head ready to be sent.
pub struct EncodedHead<O, E> {
    /// The head as it is sent, with whatever headers the encoding added.
    pub head: MessageHead<O>,
    /// The head's bytes.
    pub bytes: Vec<u8>,
    /// The encoder for the body that follows the head.
    pub encoder: h1::Encoder<E>,
}

/// The message format of one side of an HTTP/1 connection.
pub trait Http1Transaction {
    /// The subject of the messages that come in.
    type Incoming;

    /// The subject of the messages that go out.
    type Outgoing: Default;

    /// What decodes the body of a message that comes in.
    type Decode;

    /// What encodes the body of a message that goes out.
    type Encode;

    /// Parses a message head off the front of the bytes received so far.
    fn parse(bytes: &[u8]) -> ParseResult<Self::Incoming>;

    /// The decoder for the body that follows a head.
    fn decoder(head: &MessageHead<Self::Incoming>) -> Result<h1::Decoder<Self::Decode>, Error>;

    /// Encodes a head.
    fn encode(head: &MessageHead<Self::Outgoing>) -> EncodedHead<Self::Outgoing, Self::Encode>;
}

/// The name of the format that a server speaks: requests come in, responses go out.
#[derive(Debug)]
pub struct ServerTransaction;

/// The name of the format that a client speaks: responses come in, requests go out.
#[derive(Debug)]
pub struct ClientTransaction;

/// Parses a message head off the front of the bytes received so far.
pub fn parse<X: Http1Transaction>(rdr: &[u8]) -> (res: ParseResult<X::Incoming>)
    ensures
        call_ensures(X::parse, (rdr,), res),
{
    X::parse(rdr)
}

/// Bytes received and not consumed yet.
#[derive(Debug)]
pub struct Buffer {
    pub bytes: Vec<u8>,
}

impl View for Buffer {
    type V = Seq<u8>;

    open spec fn view(&self) -> Seq<u8> {
        self.bytes@
    }
}

impl Buffer {
    /// A buffer that holds nothing.
    pub fn new() -> (buf: Buffer)
        ensures
            buf@ == Seq::<u8>::empty(),
    {
        Buffer { bytes: Vec::new() }
    }

    /// How many bytes the buffer holds.
    pub fn len(&self) -> (len: usize)
        ensures
            len == self@.len(),
    {
        self.bytes.len()
    }

    /// The bytes the buffer holds.
    pub fn bytes(&self) -> (bytes: &[u8])
        ensures
            bytes@ == self@,
    {
        self.bytes.as_slice()
    }

    /// Drops bytes off the front: as many as `n`, or all there are.
    pub fn consume(&mut self, n: usize)
        ensures
            final(self)@ == consumed(old(self)@, n as nat),
    {
        if n < self.bytes.len() {
            let rest = self.bytes.split_off(n);
            self.bytes = rest;
        } else {
            self.bytes.clear();
        }
    }
}

/// What is left of `bytes` when `n` of them, or all there are, have been dropped off the front.
pub open spec fn consumed(bytes: Seq<u8>, n: nat) -> Seq<u8> {
    if n < bytes.len() {
        bytes.skip(n as int)
    } else {
        Seq::empty()
    }
}

/// The most bytes that are buffered in wait for the end of a message head.
pub const MAX_BUFFER_SIZE: usize = 8192 + 4096 * 100;

/// The receiving end of a connection.
#[derive(Debug)]
pub struct Io {
    pub buf: Buffer,
}

/// The error of a connection that ended before a message head did.
pub open spec fn is_parse_eof(error: IoError) -> bool {
    error.kind == ErrorKind::UnexpectedEof && error.message@ == "parse eof"@
}

/// What becomes of the bytes received so far, once a parser has made `parsed` of them: a head is
/// taken off their front; a head that has no end yet may not outgrow the buffer.
pub open spec fn parse_outcome<I>(bytes: Seq<u8>, parsed: ParseResult<I>) -> (
    Seq<u8>,
    Result<Option<MessageHead<I>>, Error>,
) {
    match parsed {
        Ok(Some((head, len))) => (consumed(bytes, len as nat), Ok(Some(head))),
        Ok(None) => (
            bytes,
            if bytes.len() >= MAX_BUFFER_SIZE {
                Err(Error::TooLarge)
            } else {
                Ok(None)
            },
        ),
        Err(e) => (bytes, Err(e)),
    }
}

impl Io {
    /// Receiving from `transport` by `read_from` and parsing what there is makes this into `after`
    /// and the transport into `out`, and gives `res`.
    pub open spec fn parses<
        T,
        X: Http1Transaction,
        F: FnOnce(Buffer, T) -> (Buffer, T, Result<usize, IoError>),
    >(
        self,
        transport: T,
        read_from: F,
        after: Io,
        out: T,
        res: Result<Option<MessageHead<X::Incoming>>, Error>,
    ) -> bool {
        exists|buf: Buffer, read: Result<usize, IoError>|
            {
                &&& #[trigger] call_ensures(read_from, (self.buf, transport), (buf, out, read))
                &&& match read {
                    Ok(0) => after.buf == buf && (res matches Err(Error::Io(e)) && is_parse_eof(e)),
                    Err(e) if e.kind != ErrorKind::WouldBlock => after.buf == buf && res == Err::<
                        Option<MessageHead<X::Incoming>>,
                        Error,
                    >(Error::Io(e)),
                    _ => exists|rdr: &[u8], parsed: ParseResult<X::Incoming>|
                        {
                            &&& rdr@ == buf@
                            &&& #[trigger] call_ensures(X::parse, (rdr,), parsed)
                            &&& (after.buf@, res) == parse_outcome(buf@, parsed)
                        },
                }
            }
    }

    /// Receives what there is on `transport` by `read_from`, and parses a message head off the front
    /// of all that has been received.
    pub fn parse<
        T,
        X: Http1Transaction,
        F: FnOnce(Buffer, T) -> (Buffer, T, Result<usize, IoError>),
    >(&mut self, transport: T, read_from: F) -> (out: (
        T,
        Result<Option<MessageHead<X::Incoming>>, Error>,
    ))
        requires
            call_requires(read_from, (old(self).buf, transport)),
        ensures
            old(self).parses::<T, X, F>(transport, read_from, *final(self), out.0, out.1),
    {
        let mut buf = Buffer::new();
        std::mem::swap(&mut buf, &mut self.buf);
        let (buf, transport, read) = read_from(buf, transport);
        self.buf = buf;
        match read {
            Ok(0) => {
                let eof = IoError::new(ErrorKind::UnexpectedEof, "parse eof");
                return (transport, Err(Error::Io(eof)));
            },
            Ok(_) => {},
            Err(e) => match e.kind {
                ErrorKind::WouldBlock => {},
                _ => return (transport, Err(Error::Io(e))),
            },
        }
        let res = match parse::<X>(self.buf.bytes()) {
            Ok(Some((head, len))) => {
                self.buf.consume(len);
                Ok(Some(head))
            },
            Ok(None) => {
                if self.buf.len() >= MAX_BUFFER_SIZE {
                    Err(Error::TooLarge)
                } else {
                    Ok(None)
                }
            },
            Err(e) => Err(e),
        };
        (transport, res)
    }
}

/// A transaction, as its handler sees it.
pub struct Transaction<X: Http1Transaction> {
    pub inner: TransactionImpl<X>,
}

/// A transaction of one of the protocols that connections speak.
pub enum TransactionImpl<X: Http1Transaction> {
    H1(TxnIo<X>),
}

impl<X: Http1Transaction> Transaction<X> {
    /// The HTTP/1 transaction at work.
    pub open spec fn txn(self) -> TxnIo<X> {
        match self.inner {
            TransactionImpl::H1(txn) => txn,
        }
    }

    /// A transaction that speaks HTTP/1.
    pub fn h1(txn: TxnIo<X>) -> (transaction: Transaction<X>)
        ensures
            transaction.txn() == txn,
    {
        Transaction { inner: TransactionImpl::H1(txn) }
    }

    /// The request's head, or the error that came in its place. It can be had once.
    pub fn incoming(&mut self) -> (incoming: Result<MessageHead<X::Incoming>, Error>)
        requires
            old(self).txn().heads.incoming is Some,
        ensures
            Some(incoming) == old(self).txn().heads.incoming,
            final(self).txn() == (TxnIo {
                heads: Heads { incoming: None, ..old(self).txn().heads },
                ..old(self).txn()
            }),
    {
        match &mut self.inner {
            TransactionImpl::H1(txn) => txn.incoming(),
        }
    }

    /// Whether the request's head, or the error that came in its place, can still be had.
    pub fn has_incoming(&self) -> (has: bool)
        ensures
            has == (self.txn().heads.incoming is Some),
    {
        match &self.inner {
            TransactionImpl::H1(txn) => txn.heads.incoming.is_some(),
        }
    }

    /// The response's head, to set before anything is written.
    pub fn outgoing(&mut self) -> (outgoing: &mut MessageHead<X::Outgoing>)
        ensures
            *outgoing == old(self).txn().heads.outgoing,
            final(self).txn() == (TxnIo {
                heads: Heads { outgoing: *final(outgoing), ..old(self).txn().heads },
                ..old(self).txn()
            }),
    {
        match &mut self.inner {
            TransactionImpl::H1(txn) => txn.outgoing(),
        }
    }

    /// Writes a piece of the response's body to `dst` by `encode`.
    pub fn write<
        T,
        F: FnOnce(h1::Encoder<X::Encode>, T, &[u8]) -> (
            h1::Encoder<X::Encode>,
            T,
            Result<usize, IoError>,
        ),
    >(&mut self, dst: T, data: &[u8], encode: F) -> (out: (T, Result<usize, IoError>))
        requires
            !(old(self).txn().state.writing is Ending),
            forall|encoder: h1::Encoder<X::Encode>| #[trigger]
                call_requires(encode, (encoder, dst, data)),
        ensures
            old(self).txn().writes(dst, data, encode, final(self).txn(), out),
    {
        match &mut self.inner {
            TransactionImpl::H1(txn) => txn.write(dst, data, encode),
        }
    }

    /// Writes a piece of the response's body to `dst` by `encode`, where `None` says that it would
    /// have had to wait.
    pub fn try_write<
        T,
        F: FnOnce(h1::Encoder<X::Encode>, T, &[u8]) -> (
            h1::Encoder<X::Encode>,
            T,
            Result<usize, IoError>,
        ),
    >(&mut self, dst: T, data: &[u8], encode: F) -> (out: (T, Result<Option<usize>, IoError>))
        requires
            !(old(self).txn().state.writing is Ending),
            forall|encoder: h1::Encoder<X::Encode>| #[trigger]
                call_requires(encode, (encoder, dst, data)),
        ensures
            exists|outcome: Result<usize, IoError>| #[trigger]
                old(self).txn().writes(dst, data, encode, final(self).txn(), (out.0, outcome))
                    && out.1 == unblocked(outcome),
    {
        let (left, outcome) = self.write(dst, data, encode);
        let out = (left, nonblocking(outcome));
        assert(old(self).txn().writes(dst, data, encode, self.txn(), (out.0, outcome)));
        out
    }

    /// Reads a piece of the request's body from `src` into `buf` by `decode`.
    pub fn read<
        T,
        B,
        F: FnOnce(h1::Decoder<X::Decode>, Io, T, B) -> (
            h1::Decoder<X::Decode>,
            Io,
            T,
            B,
            Result<usize, IoError>,
        ),
    >(&mut self, src: T, buf: B, decode: F) -> (out: (T, B, Result<usize, IoError>))
        requires
            !(old(self).txn().state.reading is Init),
            !(old(self).txn().state.reading is Parse),
            forall|decoder: h1::Decoder<X::Decode>, io: Io| #[trigger]
                call_requires(decode, (decoder, io, src, buf)),
        ensures
            old(self).txn().reads(src, buf, decode, final(self).txn(), out),
    {
        match &mut self.inner {
            TransactionImpl::H1(txn) => txn.read(src, buf, decode),
        }
    }

    /// Reads a piece of the request's body from `src` into `buf` by `decode`, where `None` says
    /// that it would have had to wait.
    pub fn try_read<
        T,
        B,
        F: FnOnce(h1::Decoder<X::Decode>, Io, T, B) -> (
            h1::Decoder<X::Decode>,
            Io,
            T,
            B,
            Result<usize, IoError>,
        ),
    >(&mut self, src: T, buf: B, decode: F) -> (out: (T, B, Result<Option<usize>, IoError>))
        requires
            !(old(self).txn().state.reading is Init),
            !(old(self).txn().state.reading is Parse),
            forall|decoder: h1::Decoder<X::Decode>, io: Io| #[trigger]
                call_requires(decode, (decoder, io, src, buf)),
        ensures
            exists|outcome: Result<usize, IoError>| #[trigger]
                old(self).txn().reads(src, buf, decode, final(self).txn(), (out.0, out.1, outcome))
                    && out.2 == unblocked(outcome),
    {
        let (left, filled, outcome) = self.read(src, buf, decode);
        let out = (left, filled, nonblocking(outcome));
        assert(old(self).txn().reads(src, buf, decode, self.txn(), (out.0, out.1, outcome)));
        out
    }

    /// Ends the transaction: no more will be read, and the response is completed on `dst` by
    /// `finish` and `write`.
    pub fn end<
        T,
        F: FnOnce(h1::Encoder<X::Encode>) -> Option<Ending>,
        W: Fn(T, &[u8]) -> (T, Result<usize, IoError>),
    >(&mut self, dst: T, finish: F, write: W) -> (out: T)
        requires
            finishes(finish),
            takes_bytes(write),
        ensures
            old(self).txn().ends(dst, finish, write, final(self).txn(), out),
    {
        match &mut self.inner {
            TransactionImpl::H1(txn) => txn.end(dst, finish, write),
        }
    }

    /// Gives the transaction up, both ways.
    pub fn abort(&mut self)
        ensures
            final(self).txn() == (TxnIo {
                state: old(self).txn().state.aborted(),
                ..old(self).txn()
            }),
    {
        match &mut self.inner {
            TransactionImpl::H1(txn) => txn.abort(),
        }
    }
}

} // verus!
