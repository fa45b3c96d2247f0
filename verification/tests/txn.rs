//! One transaction, operation by operation.
use hyper::http::conn::{TransactionHandler, TxnResult};
use hyper::http::h1::txn::{write_ending, write_head};
use hyper::http::h1::{Decoder, Encoder, Ending, Heads, Reading, State, Txn, TxnIo, Writing};
use hyper::http::{
    Buffer, EncodedHead, Http1Transaction, Io, MessageHead, ParseResult, Transaction,
    TransactionImpl, WriteBuf,
};
use hyper::server::{Created, Handle, Handler, HandlerFactory};
use hyper::{Async, Connection, Error, ErrorKind, Headers, HttpVersion, IoError};

/// Heads are numbers; a response's head becomes its number plus one when it is sent.
struct Numbers;

impl Http1Transaction for Numbers {
    type Incoming = u8;
    type Outgoing = u8;
    type Decode = ();
    type Encode = u32;

    fn parse(_: &[u8]) -> ParseResult<u8> {
        Ok(None)
    }

    fn decoder(_: &MessageHead<u8>) -> Result<Decoder<()>, Error> {
        Ok(Decoder { codec: (), eof: true })
    }

    fn encode(head: &MessageHead<u8>) -> EncodedHead<u8, u32> {
        EncodedHead {
            head: MessageHead {
                version: head.version,
                subject: head.subject + 1,
                headers: Headers::new(),
            },
            bytes: vec![head.subject],
            encoder: Encoder { codec: 0, eof: false, closed: false, prefix: None },
        }
    }
}

type N = TxnIo<Numbers>;

fn head(headers: Headers) -> MessageHead<u8> {
    MessageHead { version: HttpVersion::Http11, subject: 1, headers }
}

fn closing() -> Headers {
    let mut headers = Headers::new();
    headers.set(Connection::close());
    headers
}

fn txn(keep_alive: bool, reading: Reading<()>, writing: Writing<u32>) -> N {
    TxnIo {
        io: Io { buf: Buffer { bytes: b"left".to_vec() } },
        state: State { keep_alive, reading, writing },
        heads: Heads { incoming: Some(Ok(head(Headers::new()))), outgoing: head(Headers::new()) },
    }
}

fn body(eof: bool) -> Reading<()> {
    Reading::Body(Decoder { codec: (), eof })
}

fn encoder(eof: bool) -> Encoder<u32> {
    Encoder { codec: 0, eof, closed: false, prefix: None }
}

fn would_block() -> IoError {
    IoError::new(ErrorKind::WouldBlock, "wait")
}

fn no_finish(_: Encoder<u32>) -> Option<Ending> {
    panic!("nothing to finish")
}

fn no_write<T>(_: T, _: &[u8]) -> (T, Result<usize, IoError>) {
    panic!("nothing to write")
}

/// What was offered, each time, and what was received; and how much is taken, each time, until the
/// destination fails with the kind.
struct Sink {
    offers: Vec<Vec<u8>>,
    received: Vec<u8>,
    takes: Vec<usize>,
    fails: ErrorKind,
}

fn sink(takes: &[usize], fails: ErrorKind) -> Sink {
    Sink { offers: Vec::new(), received: Vec::new(), takes: takes.to_vec(), fails }
}

fn pour(mut sink: Sink, bytes: &[u8]) -> (Sink, Result<usize, IoError>) {
    let call = sink.offers.len();
    sink.offers.push(bytes.to_vec());
    if call >= sink.takes.len() {
        let error = IoError::new(sink.fails, "failed");
        return (sink, Err(error));
    }
    let n = bytes.len().min(sink.takes[call]);
    sink.received.extend_from_slice(&bytes[..n]);
    (sink, Ok(n))
}

#[test]
fn incoming_is_had_once() {
    let mut txn = txn(true, Reading::KeepAlive, Writing::Init);
    assert_eq!(txn.incoming().unwrap().subject, 1);
    assert!(txn.heads.incoming.is_none());
}

#[test]
fn outgoing_is_set_in_place() {
    let mut txn = txn(true, Reading::KeepAlive, Writing::Init);
    txn.outgoing().subject = 9;
    assert_eq!(txn.heads.outgoing.subject, 9);
}

#[test]
fn read_hands_over_the_decoder_and_the_buffer() {
    let mut txn = txn(true, body(false), Writing::Init);
    let (src, buf, res) = txn.read(b"more".to_vec(), vec![0], |d, mut io, mut src, mut buf| {
        assert_eq!(io.buf.bytes(), b"left");
        io.buf.consume(2);
        buf[0] = src.remove(0);
        (d, io, src, buf, Ok(2))
    });
    assert_eq!(res, Ok(2));
    assert_eq!((src, buf), (b"ore".to_vec(), vec![b'm']));
    assert_eq!(txn.io.buf.bytes(), b"ft");
    assert!(matches!(txn.state.reading, Reading::Body(_)));
}

#[test]
fn read_to_the_end_keeps_or_closes() {
    for keep_alive in [true, false] {
        let mut txn = txn(keep_alive, body(false), Writing::Init);
        let (_, _, res) = txn.read((), (), |_, io, src, buf| {
            (Decoder { codec: (), eof: true }, io, src, buf, Err(would_block()))
        });
        assert_eq!(res, Err(would_block()));
        assert_eq!(matches!(txn.state.reading, Reading::KeepAlive), keep_alive);
        assert_eq!(matches!(txn.state.reading, Reading::Closed), !keep_alive);
        // nothing more is read, from where the next message comes
        let out = txn.read(b"next".to_vec(), vec![7], |_, _, _, _| panic!("read"));
        assert_eq!(out, (b"next".to_vec(), vec![7], Ok(0)));
        assert_eq!(txn.io.buf.bytes(), b"left");
    }
}

#[test]
fn write_puts_the_head_in_front() {
    let mut txn = txn(true, Reading::KeepAlive, Writing::Init);
    let (dst, res) = txn.write(Vec::new(), b"abc", |mut e, mut dst, data| {
        let prefix = e.prefix.take().unwrap();
        dst.extend_from_slice(prefix.unwritten());
        dst.extend_from_slice(data);
        e.codec += data.len() as u32;
        (e, dst, Ok(data.len()))
    });
    assert_eq!(res, Ok(3));
    assert_eq!(dst, b"\x01abc");
    assert_eq!(txn.heads.outgoing.subject, 2);
    // a head that is set now is not sent, and the first is not sent again
    txn.outgoing().subject = 50;
    let (dst, res) = txn.write(dst, b"de", |e, mut dst, data| {
        assert!(e.prefix.is_none());
        assert_eq!(e.codec, 3);
        dst.extend_from_slice(data);
        (encoder(true), dst, Ok(2))
    });
    assert_eq!(res, Ok(2));
    assert_eq!(dst, b"\x01abcde");
    assert_eq!(txn.heads.outgoing.subject, 50);
    assert!(matches!(txn.state.writing, Writing::KeepAlive));
    // nothing more is sent
    assert_eq!(txn.write(dst, b"f", |_, _, _| panic!("written")), (b"\x01abcde".to_vec(), Ok(0)));
}

#[test]
fn write_gives_errors_through() {
    let mut txn = txn(true, Reading::KeepAlive, Writing::Body(encoder(false)));
    let reset = || IoError::new(ErrorKind::ConnectionReset, "reset");
    let (_, res) = txn.write((), b"abc", |e, dst, _| (e, dst, Err(reset())));
    assert_eq!(res, Err(reset()));
    assert!(matches!(txn.state.writing, Writing::Body(_)));
}

#[test]
fn server_can_refuse_but_not_insist() {
    for (client, server) in [(true, true), (true, false), (false, true), (false, false)] {
        let mut state: State<(), u32> =
            State { keep_alive: client, reading: Reading::KeepAlive, writing: Writing::Head };
        let mut outgoing = head(if server { Headers::new() } else { closing() });
        write_head::<Numbers>(&mut state, &mut outgoing);
        assert_eq!(state.keep_alive, client && server);
        assert_eq!(outgoing.subject, 2);
        match state.writing {
            Writing::Body(e) => assert_eq!(e.prefix.unwrap().bytes, vec![1]),
            other => panic!("{:?}", other),
        }
    }
}

#[test]
fn end_reading_keeps_only_what_was_read() {
    let cases = [
        (true, body(true), true),
        (false, body(true), false),
        (true, body(false), false),
        (true, Reading::KeepAlive, true),
        (true, Reading::Closed, false),
        (true, Reading::Init, false),
        (true, Reading::Parse, false),
    ];
    for (keep_alive, reading, kept) in cases {
        let mut txn = txn(keep_alive, reading, Writing::Closed);
        txn.end_reading();
        assert_eq!(matches!(txn.state.reading, Reading::KeepAlive), kept);
        assert_eq!(matches!(txn.state.reading, Reading::Closed), !kept);
    }
}

#[test]
fn end_writes_the_head_and_the_ending() {
    let mut txn = txn(true, Reading::KeepAlive, Writing::Init);
    let finish = |e: Encoder<u32>| {
        let mut prefix = e.prefix.unwrap();
        prefix.bytes.extend_from_slice(b"0\r\n\r\n");
        Some(prefix)
    };
    let out = txn.end(sink(&[1; 9], ErrorKind::Other), finish, pour);
    assert_eq!(out.received, b"\x010\r\n\r\n");
    assert_eq!(out.offers.len(), 6);
    assert!(matches!(txn.state.reading, Reading::KeepAlive));
    assert!(matches!(txn.state.writing, Writing::KeepAlive));
}

#[test]
fn end_of_a_complete_response_writes_nothing() {
    let mut txn = txn(true, Reading::KeepAlive, Writing::Body(encoder(true)));
    assert_eq!(txn.end(b"sent".to_vec(), no_finish, no_write), b"sent");
    assert!(matches!(txn.state.writing, Writing::KeepAlive));
}

#[test]
fn end_of_a_response_that_cannot_be_completed_closes() {
    let mut t = txn(true, Reading::KeepAlive, Writing::Body(encoder(false)));
    assert_eq!(t.end(b"sent".to_vec(), |_| None, no_write), b"sent");
    assert!(matches!(t.state.writing, Writing::Closed));

    let mut t = txn(true, Reading::KeepAlive, Writing::Body(encoder(false)));
    let dst = sink(&[1], ErrorKind::ConnectionReset);
    let out = t.end(dst, |_| Some(WriteBuf::new(b"end".to_vec())), pour);
    assert_eq!(out.received, b"e");
    assert_eq!(out.offers.len(), 2);
    assert!(matches!(t.state.writing, Writing::Closed));
}

#[test]
fn end_that_would_block_keeps_the_rest() {
    let mut t = txn(true, Reading::KeepAlive, Writing::Body(encoder(false)));
    let dst = sink(&[2], ErrorKind::WouldBlock);
    let out = t.end(dst, |_| Some(WriteBuf::new(b"end".to_vec())), pour);
    assert_eq!(out.received, b"en");
    match &t.state.writing {
        Writing::Ending(ending) => assert_eq!(ending.unwritten(), b"d"),
        other => panic!("{:?}", other),
    }
    // ending again changes nothing
    let out = t.end(out, no_finish, no_write);
    assert_eq!(out.received, b"en");
    assert!(matches!(&t.state.writing, Writing::Ending(ending) if ending.pos == 2));
}

#[test]
fn end_twice_is_end_once() {
    for writing in [Writing::KeepAlive, Writing::Closed] {
        let kept = matches!(writing, Writing::KeepAlive);
        let mut t = txn(true, Reading::KeepAlive, writing);
        let out = t.end(b"sent".to_vec(), no_finish, no_write);
        assert_eq!(t.end(out, no_finish, no_write), b"sent");
        assert_eq!(matches!(t.state.writing, Writing::KeepAlive), kept);
        assert_eq!(matches!(t.state.writing, Writing::Closed), !kept);
    }
    // one that had not begun, too
    let mut t = txn(true, Reading::KeepAlive, Writing::Init);
    let out = t.end(sink(&[9], ErrorKind::Other), |e| e.prefix, pour);
    let out = t.end(out, no_finish, no_write);
    assert_eq!(out.received, b"\x01");
    assert!(matches!(t.state.writing, Writing::KeepAlive));
}

#[test]
fn abort_closes_both_ways() {
    let mut t = txn(true, Reading::KeepAlive, Writing::KeepAlive);
    t.abort();
    assert!(matches!(t.state.reading, Reading::Closed));
    assert!(matches!(t.state.writing, Writing::Closed));
    assert!(t.state.keep_alive);
}

#[test]
fn ending_is_written_piece_by_piece() {
    let mut ending = WriteBuf::new(b"0\r\n\r\n".to_vec());
    let (out, res) = write_ending(&mut ending, sink(&[2; 9], ErrorKind::Other), pour);
    assert_eq!(res, Ok(Async::Ready(())));
    assert!(ending.is_written());
    assert_eq!(ending.pos, 5);
    assert_eq!(out.received, b"0\r\n\r\n");
    assert_eq!(out.offers, vec![b"0\r\n\r\n".to_vec(), b"\n\r\n".to_vec(), b"\n".to_vec()]);
}

#[test]
fn empty_ending_is_offered_once() {
    let mut ending = WriteBuf::new(Vec::new());
    let (out, res) = write_ending(&mut ending, sink(&[2; 9], ErrorKind::Other), pour);
    assert_eq!((res, out.offers), (Ok(Async::Ready(())), vec![vec![]]));
}

#[test]
fn failed_ending_tells_why() {
    let mut ending = WriteBuf::new(b"end".to_vec());
    let (out, res) = write_ending(&mut ending, sink(&[], ErrorKind::WouldBlock), pour);
    assert_eq!((res, out.offers.len()), (Ok(Async::NotReady), 1));
    let (out, res) = write_ending(&mut ending, sink(&[1], ErrorKind::Interrupted), pour);
    assert_eq!(res, Err(IoError::new(ErrorKind::Interrupted, "failed")));
    assert_eq!((out.received.as_slice(), out.offers.len()), (&b"e"[..], 2));
    assert_eq!(ending.pos, 1);
}

/// Leaves the transaction at a state when it gets to work.
struct Leave(Option<(Reading<()>, Writing<u32>)>);

impl TransactionHandler for Leave {
    type Transaction = Numbers;
    type Transport = u32;

    fn ready(&mut self, txn: &mut Transaction<Numbers>, transport: u32) -> u32 {
        let TransactionImpl::H1(txn) = &mut txn.inner;
        if let Some((reading, writing)) = self.0.take() {
            txn.state.reading = reading;
            txn.state.writing = writing;
        }
        transport + 1
    }
}

fn outcome(reading: Reading<()>, writing: Writing<u32>) -> Async<TxnResult> {
    let incoming = Ok((head(Headers::new()), Decoder { codec: (), eof: true }));
    let txn = Txn::incoming(incoming, Leave(Some((reading, writing))));
    let (txn, io, transport, res) = txn.tick(Io { buf: Buffer { bytes: b"left".to_vec() } }, 4);
    assert_eq!(transport, 5);
    assert!(txn.handler.0.is_none());
    assert_eq!(io.buf.bytes(), b"left");
    res
}

#[test]
fn transaction_is_over_when_both_messages_are() {
    assert_eq!(outcome(Reading::KeepAlive, Writing::KeepAlive), Async::Ready(TxnResult::KeepAlive));
    assert_eq!(outcome(Reading::KeepAlive, Writing::Closed), Async::Ready(TxnResult::Close));
    assert_eq!(outcome(Reading::Closed, Writing::KeepAlive), Async::Ready(TxnResult::Close));
    assert_eq!(outcome(Reading::Closed, Writing::Closed), Async::Ready(TxnResult::Close));
    assert_eq!(outcome(body(false), Writing::KeepAlive), Async::NotReady);
    assert_eq!(outcome(Reading::KeepAlive, Writing::Init), Async::NotReady);
    assert_eq!(outcome(Reading::Closed, Writing::Body(encoder(false))), Async::NotReady);
    let ending = Writing::Ending(WriteBuf::new(b"end".to_vec()));
    assert_eq!(outcome(Reading::Closed, ending), Async::NotReady);
}

#[test]
fn transaction_starts_from_its_request() {
    let start = |headers, eof| {
        Txn::incoming(Ok((head(headers), Decoder { codec: (), eof })), Leave(None))
    };
    let txn = start(Headers::new(), true);
    assert!(txn.state.keep_alive);
    assert!(matches!(txn.state.reading, Reading::KeepAlive));
    assert!(matches!(txn.state.writing, Writing::Init));
    assert!(matches!(&txn.heads.incoming, Some(Ok(head)) if head.subject == 1));
    assert_eq!(txn.heads.outgoing.subject, 0);
    assert_eq!(txn.heads.outgoing.version, HttpVersion::Http11);

    let txn = start(closing(), true);
    assert!(!txn.state.keep_alive);
    assert!(matches!(txn.state.reading, Reading::Closed));

    let txn = start(closing(), false);
    assert!(matches!(txn.state.reading, Reading::Body(_)));

    let txn = Txn::incoming(Err(Error::TooLarge), Leave(None));
    assert!(!txn.state.keep_alive);
    assert!(matches!(txn.state.reading, Reading::Closed));
    assert!(matches!(txn.heads.incoming, Some(Err(Error::TooLarge))));
}

#[test]
fn transaction_passes_on_what_its_handler_does() {
    let mut t: Transaction<Numbers> =
        Transaction::h1(txn(true, body(false), Writing::Init));
    t.outgoing().subject = 7;
    assert_eq!(t.read(1, 'b', |d, io, n, b| (d, io, n + 1, b, Ok(4))), (2, 'b', Ok(4)));
    let blocked = t.try_read(1, 'b', |d, io, n, b| (d, io, n + 1, b, Err(would_block())));
    assert_eq!(blocked, (2, 'b', Ok(None)));
    let read = t.try_read(1, 'b', |_, io, n, _| {
        (Decoder { codec: (), eof: true }, io, n + 1, 'c', Ok(0))
    });
    assert_eq!(read, (2, 'c', Ok(Some(0))));
    assert_eq!(t.try_write(1, b"x", |e, n, _| (e, n + 1, Err(would_block()))), (2, Ok(None)));
    assert_eq!(t.write(1, b"x", |_, n, _| (encoder(false), n + 1, Ok(1))), (2, Ok(1)));
    assert_eq!(t.try_write(1, b"x", |_, n, _| (encoder(true), n + 1, Ok(1))), (2, Ok(Some(1))));
    assert_eq!(t.end(1, no_finish, no_write), 1);
    assert!(t.has_incoming());
    assert!(t.incoming().is_ok());
    assert!(!t.has_incoming());
    let TransactionImpl::H1(t) = t.inner;
    assert_eq!(t.heads.outgoing.subject, 8);
    assert!(matches!(t.state.reading, Reading::KeepAlive));
    assert!(matches!(t.state.writing, Writing::KeepAlive));
}

#[test]
fn transaction_can_be_given_up() {
    let mut t: Transaction<Numbers> = Transaction::h1(txn(true, body(false), Writing::Init));
    t.abort();
    let TransactionImpl::H1(t) = t.inner;
    assert!(matches!(t.state.reading, Reading::Closed));
    assert!(matches!(t.state.writing, Writing::Closed));
}

/// Answers with its number, and ends.
struct Answer(u8);

impl Handler for Answer {
    type Transaction = Numbers;
    type Transport = Vec<u8>;

    fn ready<'b>(
        &mut self,
        txn: &mut hyper::server::Transaction<'b, Numbers>,
        mut transport: Vec<u8>,
    ) -> Vec<u8> {
        txn.response().subject = self.0;
        transport.push(self.0);
        self.0 += 1;
        transport
    }
}

/// Makes a handler of each request, and counts how often it is asked to.
struct Answers(u32);

impl HandlerFactory for Answers {
    type Output = Answer;

    fn create(&mut self, incoming: Result<MessageHead<u8>, Error>) -> Result<Answer, Error> {
        self.0 += 1;
        incoming.map(|head| Answer(head.subject))
    }
}

#[test]
fn handler_is_created_once() {
    let mut t: Transaction<Numbers> = Transaction::h1(txn(true, body(false), Writing::Init));
    let mut handle = Handle::new(Created::new(Answers(0)));
    let transport = handle.ready(&mut t, vec![]);
    let transport = handle.ready(&mut t, transport);
    assert_eq!(transport, vec![1, 2]);
    assert_eq!(handle.handler.factory.0, 1);
    assert!(!t.has_incoming());
    assert_eq!(t.outgoing().subject, 2);
    let TransactionImpl::H1(t) = t.inner;
    assert!(matches!(t.state.reading, Reading::Body(_)));
}

#[test]
fn transaction_without_a_handler_is_given_up() {
    let mut inner = txn(true, body(false), Writing::Init);
    inner.heads.incoming = Some(Err(Error::TooLarge));
    let mut t: Transaction<Numbers> = Transaction::h1(inner);
    let mut handle = Handle::new(Created::new(Answers(0)));
    assert_eq!(handle.ready(&mut t, vec![9]), vec![9]);
    assert_eq!(handle.ready(&mut t, vec![9]), vec![9]);
    assert_eq!(handle.handler.factory.0, 1);
    let TransactionImpl::H1(t) = t.inner;
    assert!(matches!(t.state.reading, Reading::Closed));
    assert!(matches!(t.state.writing, Writing::Closed));
}

#[test]
fn refused_transaction_closes_its_connection() {
    let txn = Txn::incoming(Err(Error::TooLarge), Handle::new(Created::new(Answers(0))));
    let (txn, io, transport, res) = txn.tick(Io { buf: Buffer { bytes: b"left".to_vec() } }, vec![9]);
    assert_eq!(res, Async::Ready(TxnResult::Close));
    assert_eq!(transport, vec![9]);
    assert_eq!(io.buf.bytes(), b"left");
    assert!(txn.handler.handler.handler.is_none());
}

#[test]
fn handler_leaves_the_transaction_as_it_ends() {
    let incoming = Ok((head(Headers::new()), Decoder { codec: (), eof: false }));
    let txn = Txn::incoming(incoming, Handle::new(Created::new(Answers(0))));
    let (txn, _, transport, res) = txn.tick(Io { buf: Buffer::new() }, vec![]);
    assert_eq!(res, Async::NotReady);
    assert_eq!(transport, vec![1]);
    assert_eq!(txn.heads.outgoing.subject, 1);
    assert!(matches!(txn.state.reading, Reading::Body(_)));
    assert!(matches!(txn.state.writing, Writing::Init));
}
