//! A server's connections, driven over a wire in memory by a small HTTP/1 codec.
use std::cell::RefCell;
use std::collections::VecDeque;
use std::rc::Rc;

use hyper::http::h1::{Decoder, Encoder, Ending};
use hyper::http::{
    Buffer, Conn, ConnectionHandler, EncodedHead, Http1Transaction, Io, MessageHead, ParseResult,
    RawStatus, RequestLine, WriteBuf,
};
use hyper::server::{Context, Handle, Handler, MergedItem, Server, Transaction};
use hyper::{Async, Connection, ConnectionOption, Error, ErrorKind, Headers, HttpVersion, IoError};

/// What the client sent and has not been received, and what it got back.
#[derive(Default)]
struct Wire {
    input: VecDeque<u8>,
    output: Vec<u8>,
    stalled: bool,
}

fn would_block() -> IoError {
    IoError::new(ErrorKind::WouldBlock, "would block")
}

enum BodyIn {
    Length(usize),
    ChunkSize(String),
    ChunkData(usize),
    ChunkEnd(usize),
    Done,
}

impl BodyIn {
    fn is_eof(&self) -> bool {
        matches!(self, BodyIn::Length(0) | BodyIn::Done)
    }

    /// Takes in one byte, and gives it back if it belongs to the body.
    fn feed(self, byte: u8) -> (BodyIn, Option<u8>) {
        match self {
            BodyIn::Length(n) => (BodyIn::Length(n - 1), Some(byte)),
            BodyIn::ChunkSize(mut digits) => match byte {
                b'\r' => (BodyIn::ChunkSize(digits), None),
                b'\n' => match usize::from_str_radix(&digits, 16).unwrap() {
                    0 => (BodyIn::ChunkEnd(0), None),
                    n => (BodyIn::ChunkData(n), None),
                },
                digit => {
                    digits.push(digit as char);
                    (BodyIn::ChunkSize(digits), None)
                }
            },
            BodyIn::ChunkData(1) => (BodyIn::ChunkEnd(1), Some(byte)),
            BodyIn::ChunkData(n) => (BodyIn::ChunkData(n - 1), Some(byte)),
            BodyIn::ChunkEnd(n) => match byte {
                b'\n' if n == 0 => (BodyIn::Done, None),
                b'\n' => (BodyIn::ChunkSize(String::new()), None),
                _ => (BodyIn::ChunkEnd(n), None),
            },
            BodyIn::Done => (BodyIn::Done, None),
        }
    }
}

enum BodyOut {
    Length(usize),
    Chunked { ended: bool },
}

struct Proto;

impl Http1Transaction for Proto {
    type Incoming = RequestLine;
    type Outgoing = RawStatus;
    type Decode = BodyIn;
    type Encode = BodyOut;

    fn parse(bytes: &[u8]) -> ParseResult<RequestLine> {
        let mut lines = Vec::new();
        let mut start = 0;
        loop {
            let end = match bytes[start..].iter().position(|b| *b == b'\n') {
                Some(n) => start + n,
                None => return Ok(None),
            };
            let line = String::from_utf8(bytes[start..end].to_vec()).unwrap();
            start = end + 1;
            let line = line.trim_end_matches('\r').to_string();
            if !line.is_empty() {
                lines.push(line);
            } else if !lines.is_empty() {
                break;
            }
        }
        let words: Vec<&str> = lines[0].split(' ').collect();
        if words.len() != 3 {
            return Err(Error::Head(lines[0].clone()));
        }
        let version = match words[2] {
            "HTTP/1.0" => HttpVersion::Http10,
            "HTTP/1.1" => HttpVersion::Http11,
            "HTTP/2.0" => HttpVersion::Http20,
            other => return Err(Error::Head(other.to_string())),
        };
        let mut headers = Headers::new();
        for line in &lines[1..] {
            let (name, value) = line.split_once(": ").unwrap();
            match (name, value) {
                ("Connection", "close") => headers.set(Connection::close()),
                ("Connection", "keep-alive") => headers.set(Connection::keep_alive()),
                _ => headers.raw.push((name.to_string(), value.as_bytes().to_vec())),
            }
        }
        let subject = RequestLine(words[0].to_string(), words[1].to_string());
        Ok(Some((MessageHead { version, subject, headers }, start)))
    }

    fn decoder(head: &MessageHead<RequestLine>) -> Result<Decoder<BodyIn>, Error> {
        let mut codec = BodyIn::Length(0);
        for (name, value) in &head.headers.raw {
            let value = String::from_utf8(value.clone()).unwrap();
            match name.as_str() {
                "Content-Length" => match value.parse() {
                    Ok(n) => codec = BodyIn::Length(n),
                    Err(_) => return Err(Error::Head(value)),
                },
                "Transfer-Encoding" => codec = BodyIn::ChunkSize(String::new()),
                _ => {}
            }
        }
        let eof = codec.is_eof();
        Ok(Decoder { codec, eof })
    }

    fn encode(head: &MessageHead<RawStatus>) -> EncodedHead<RawStatus, BodyOut> {
        let mut raw = head.headers.raw.clone();
        let mut codec = BodyOut::Chunked { ended: false };
        for (name, value) in &raw {
            if name == "Content-Length" {
                let value = String::from_utf8(value.clone()).unwrap();
                codec = BodyOut::Length(value.parse().unwrap());
            }
        }
        let chunked = matches!(codec, BodyOut::Chunked { .. });
        if chunked && !raw.iter().any(|(name, _)| name == "Transfer-Encoding") {
            raw.push(("Transfer-Encoding".to_string(), b"chunked".to_vec()));
        }
        let mut connection = None;
        let mut text = format!("HTTP/1.1 {}\r\n", head.subject.to_string());
        if let Some(conn) = head.headers.get() {
            if conn.0 == vec![ConnectionOption::Close] {
                text.push_str("Connection: close\r\n");
                connection = Some(Connection::close());
            }
        }
        let mut bytes = text.into_bytes();
        for (name, value) in &raw {
            bytes.extend_from_slice(name.as_bytes());
            bytes.extend_from_slice(b": ");
            bytes.extend_from_slice(value);
            bytes.extend_from_slice(b"\r\n");
        }
        bytes.extend_from_slice(b"\r\n");
        EncodedHead {
            head: MessageHead {
                version: head.version,
                subject: RawStatus(head.subject.0, head.subject.1.clone()),
                headers: Headers { connection, raw },
            },
            bytes,
            encoder: Encoder { eof: matches!(codec, BodyOut::Length(0)), codec, closed: false, prefix: None },
        }
    }
}

fn receive(mut buf: Buffer, mut wire: Wire) -> (Buffer, Wire, Result<usize, IoError>) {
    let n = wire.input.len();
    if n == 0 {
        return (buf, wire, Err(would_block()));
    }
    buf.bytes.extend(wire.input.drain(..));
    (buf, wire, Ok(n))
}

fn read(
    wire: Wire,
    txn: &mut Transaction<'_, Proto>,
    out: &mut [u8],
) -> (Wire, Result<usize, IoError>) {
    let (wire, _, res) = txn.read(wire, out, |decoder, mut io: Io, mut wire: Wire, out| {
        let mut codec = decoder.codec;
        let mut n = 0;
        let mut stalled = false;
        while n < out.len() && !codec.is_eof() {
            let byte = if io.buf.len() > 0 {
                let byte = io.buf.bytes()[0];
                io.buf.consume(1);
                byte
            } else {
                match wire.input.pop_front() {
                    Some(byte) => byte,
                    None => {
                        stalled = true;
                        break;
                    }
                }
            };
            let (next, part) = codec.feed(byte);
            codec = next;
            if let Some(byte) = part {
                out[n] = byte;
                n += 1;
            }
        }
        let eof = codec.is_eof();
        let res = if n == 0 && stalled { Err(would_block()) } else { Ok(n) };
        (Decoder { codec, eof }, io, wire, out, res)
    });
    (wire, res)
}

fn write(
    wire: Wire,
    txn: &mut Transaction<'_, Proto>,
    data: &[u8],
) -> (Wire, Result<usize, IoError>) {
    txn.write(wire, data, |encoder, mut wire: Wire, data: &[u8]| {
        if wire.stalled {
            return (encoder, wire, Err(would_block()));
        }
        if let Some(prefix) = &encoder.prefix {
            wire.output.extend_from_slice(prefix.unwritten());
        }
        let (codec, taken) = match encoder.codec {
            BodyOut::Length(left) => {
                let taken = left.min(data.len());
                wire.output.extend_from_slice(&data[..taken]);
                (BodyOut::Length(left - taken), taken)
            }
            BodyOut::Chunked { .. } => {
                wire.output.extend_from_slice(format!("{:X}\r\n", data.len()).as_bytes());
                wire.output.extend_from_slice(data);
                wire.output.extend_from_slice(b"\r\n");
                (BodyOut::Chunked { ended: data.is_empty() }, data.len())
            }
        };
        let eof = matches!(codec, BodyOut::Length(0) | BodyOut::Chunked { ended: true });
        (Encoder { codec, eof, closed: encoder.closed, prefix: None }, wire, Ok(taken))
    })
}

fn finish(encoder: Encoder<BodyOut>) -> Option<Ending> {
    let trailer: &[u8] = match encoder.codec {
        BodyOut::Chunked { ended: false } => b"0\r\n\r\n",
        _ => b"",
    };
    match encoder.prefix {
        Some(mut prefix) => {
            prefix.bytes.extend_from_slice(trailer);
            Some(prefix)
        }
        None if trailer.is_empty() => None,
        None => Some(WriteBuf::new(trailer.to_vec())),
    }
}

/// Takes three bytes at once at the most.
fn take(mut wire: Wire, bytes: &[u8]) -> (Wire, Result<usize, IoError>) {
    if wire.stalled {
        return (wire, Err(would_block()));
    }
    let n = bytes.len().min(3);
    wire.output.extend_from_slice(&bytes[..n]);
    (wire, Ok(n))
}

fn end(wire: Wire, txn: &mut Transaction<'_, Proto>) -> Wire {
    txn.end(wire, finish, take)
}

enum Reply {
    Status(u16, &'static str),
    Header(&'static str, String),
    Body(Vec<u8>),
}

enum State {
    Read,
    Reply,
    Write,
    End,
}

struct TestHandler {
    body: Rc<RefCell<Vec<u8>>>,
    reply: Vec<Reply>,
    peeked: Option<Vec<u8>>,
    state: State,
}

impl Handler for TestHandler {
    type Transaction = Proto;
    type Transport = Wire;

    fn ready<'b>(&mut self, txn: &mut Transaction<'b, Proto>, mut wire: Wire) -> Wire {
        loop {
            match self.state {
                State::Read => {
                    let mut buf = [0; 1024];
                    let (left, res) = read(wire, txn, &mut buf);
                    wire = left;
                    match res {
                        Ok(0) => self.state = State::Reply,
                        Ok(n) => self.body.borrow_mut().extend_from_slice(&buf[..n]),
                        Err(e) => match e.kind {
                            ErrorKind::WouldBlock => return wire,
                            _ => panic!("test error: {:?}", e),
                        },
                    }
                }
                State::Reply => {
                    for reply in self.reply.drain(..) {
                        let head = txn.response();
                        match reply {
                            Reply::Status(code, reason) => {
                                head.subject = RawStatus::from_status(code, Some(reason));
                            }
                            Reply::Header(name, value) => {
                                head.headers.raw.push((name.to_string(), value.into_bytes()));
                            }
                            Reply::Body(body) => self.peeked = Some(body),
                        }
                    }
                    if self.peeked.is_some() {
                        self.state = State::Write;
                    } else {
                        wire = end(wire, txn);
                        self.state = State::End;
                    }
                }
                State::Write => {
                    if let Some(body) = self.peeked.take() {
                        let (left, res) = write(wire, txn, &body);
                        wire = left;
                        res.unwrap();
                    }
                    self.state = State::End;
                    wire = end(wire, txn);
                }
                State::End => {
                    return end(wire, txn);
                }
            }
        }
    }
}

/// Makes a handler for each transaction, out of the replies that are there when it starts.
struct Factory {
    body: Rc<RefCell<Vec<u8>>>,
    replies: Rc<RefCell<Vec<Reply>>>,
    made: Rc<RefCell<usize>>,
    limit: usize,
}

impl ConnectionHandler for Factory {
    type Txn = Handle<TestHandler>;

    fn transaction(&mut self) -> Option<Handle<TestHandler>> {
        if *self.made.borrow() >= self.limit {
            return None;
        }
        *self.made.borrow_mut() += 1;
        Some(Handle::new(TestHandler {
            body: self.body.clone(),
            reply: self.replies.borrow_mut().drain(..).collect(),
            peeked: None,
            state: State::Read,
        }))
    }
}

struct Serve {
    conn: Conn<u32, Factory>,
    wire: Option<Wire>,
    body: Rc<RefCell<Vec<u8>>>,
    replies: Rc<RefCell<Vec<Reply>>>,
    made: Rc<RefCell<usize>>,
}

impl Serve {
    fn body(&self) -> Vec<u8> {
        self.body.borrow().clone()
    }

    fn reply(&self, reply: Reply) -> &Serve {
        self.replies.borrow_mut().push(reply);
        self
    }

    fn wire(&mut self) -> &mut Wire {
        self.wire.as_mut().unwrap()
    }

    fn send(&mut self, bytes: &[u8]) -> Async<()> {
        self.wire().input.extend(bytes.iter().copied());
        self.poll()
    }

    fn poll(&mut self) -> Async<()> {
        self.poll_for(usize::MAX).unwrap()
    }

    fn poll_for(&mut self, turns: usize) -> Option<Async<()>> {
        let (wire, res) = self.conn.poll(self.wire.take().unwrap(), receive, turns);
        self.wire = Some(wire);
        res
    }

    fn tick(&mut self) -> Option<Async<()>> {
        let (wire, res) = self.conn.tick(self.wire.take().unwrap(), receive);
        self.wire = Some(wire);
        res
    }

    fn output(&self) -> String {
        String::from_utf8(self.wire.as_ref().unwrap().output.clone()).unwrap()
    }
}

fn serve_with(context: &Context<()>, limit: usize) -> Serve {
    let body: Rc<RefCell<Vec<u8>>> = Rc::default();
    let replies: Rc<RefCell<Vec<Reply>>> = Rc::default();
    let made: Rc<RefCell<usize>> = Rc::default();
    let factory = Factory {
        body: body.clone(),
        replies: replies.clone(),
        made: made.clone(),
        limit,
    };
    let conn = context.accept(MergedItem::First((7, factory))).ok().unwrap();
    Serve { conn, wire: Some(Wire::default()), body, replies, made }
}

fn serve() -> Serve {
    let (_, context) = Server::new(vec![()]).handle(());
    serve_with(&context, usize::MAX)
}

#[test]
fn server_get_should_ignore_body() {
    let mut server = serve();
    // Connection: close = don't try to parse the body as a new request
    server.send(
        b"\
        GET / HTTP/1.1\r\n\
        Host: example.domain\r\n\
        Connection: close\r\n
        \r\n\
        I shouldn't be read.\r\n\
    ",
    );

    assert_eq!(server.body(), b"");
}

#[test]
fn server_get_with_body() {
    let mut server = serve();
    server.send(
        b"\
        GET / HTTP/1.1\r\n\
        Host: example.domain\r\n\
        Content-Length: 19\r\n\
        \r\n\
        I'm a good request.\r\n\
    ",
    );

    // note: doesnt include trailing \r\n, cause Content-Length wasn't 21
    assert_eq!(server.body(), b"I'm a good request.");
}

#[test]
fn server_get_fixed_response() {
    let foo_bar = b"foo bar baz";
    let mut server = serve();
    server
        .reply(Reply::Status(200, "OK"))
        .reply(Reply::Header("Content-Length", foo_bar.len().to_string()))
        .reply(Reply::Body(foo_bar.to_vec()));
    server.send(
        b"\
        GET / HTTP/1.1\r\n\
        Host: example.domain\r\n\
        Connection: close\r\n
        \r\n\
    ",
    );
    let body = server.output();
    let n = body.find("\r\n\r\n").unwrap() + 4;

    assert_eq!(&body[n..], "foo bar baz");
}

#[test]
fn server_get_chunked_response() {
    let foo_bar = b"foo bar baz";
    let mut server = serve();
    server
        .reply(Reply::Status(200, "OK"))
        .reply(Reply::Header("Transfer-Encoding", "chunked".to_string()))
        .reply(Reply::Body(foo_bar.to_vec()));
    server.send(
        b"\
        GET / HTTP/1.1\r\n\
        Host: example.domain\r\n\
        Connection: close\r\n
        \r\n\
    ",
    );
    let body = server.output();
    let n = body.find("\r\n\r\n").unwrap() + 4;

    assert_eq!(&body[n..], "B\r\nfoo bar baz\r\n0\r\n\r\n");
}

#[test]
fn server_post_with_chunked_body() {
    let mut server = serve();
    server.send(
        b"\
        POST / HTTP/1.1\r\n\
        Host: example.domain\r\n\
        Transfer-Encoding: chunked\r\n\
        \r\n\
        1\r\n\
        q\r\n\
        2\r\n\
        we\r\n\
        2\r\n\
        rt\r\n\
        0\r\n\
        \r\n\
    ",
    );

    assert_eq!(server.body(), b"qwert");
}

fn assert_empty_chunked(response: &str) {
    assert!(response.contains("Transfer-Encoding: chunked\r\n"));

    let mut lines = response.lines();
    assert_eq!(lines.next(), Some("HTTP/1.1 200 OK"));

    let mut lines = lines.skip_while(|line| !line.is_empty());
    assert_eq!(lines.next(), Some(""));
    // 0\r\n\r\n
    assert_eq!(lines.next(), Some("0"));
    assert_eq!(lines.next(), Some(""));
    assert_eq!(lines.next(), None);
}

#[test]
fn server_empty_response_chunked() {
    let mut server = serve();
    server.reply(Reply::Status(200, "OK")).reply(Reply::Body(Vec::new()));
    server.send(
        b"\
        GET / HTTP/1.1\r\n\
        Host: example.domain\r\n\
        Connection: close\r\n
        \r\n\
    ",
    );

    assert_empty_chunked(&server.output());
}

#[test]
fn server_empty_response_chunked_without_calling_write() {
    let mut server = serve();
    server
        .reply(Reply::Status(200, "OK"))
        .reply(Reply::Header("Transfer-Encoding", "chunked".to_string()));
    server.send(
        b"\
        GET / HTTP/1.1\r\n\
        Host: example.domain\r\n\
        Connection: close\r\n
        \r\n\
    ",
    );

    assert_empty_chunked(&server.output());
}

#[test]
fn server_keep_alive() {
    let foo_bar = b"foo bar baz";
    let mut server = serve();
    server
        .reply(Reply::Status(200, "OK"))
        .reply(Reply::Header("Content-Length", foo_bar.len().to_string()))
        .reply(Reply::Body(foo_bar.to_vec()));
    let res = server.send(
        b"\
        GET / HTTP/1.1\r\n\
        Host: example.domain\r\n\
        Connection: keep-alive\r\n\
        \r\n\
    ",
    );
    assert_eq!(res, Async::NotReady);
    assert!(server.output().ends_with("foo bar baz"));

    // try again!

    let quux = b"zar quux";
    server
        .reply(Reply::Status(200, "OK"))
        .reply(Reply::Header("Content-Length", quux.len().to_string()))
        .reply(Reply::Body(quux.to_vec()));
    let res = server.send(
        b"\
        GET /quux HTTP/1.1\r\n\
        Host: example.domain\r\n\
        Connection: close\r\n\
        \r\n\
    ",
    );
    assert_eq!(res, Async::Ready(()));
    assert!(server.output().ends_with("zar quux"));
    assert_eq!(*server.made.borrow(), 2);
}

#[test]
fn disabled_keep_alive_closes_after_one_transaction() {
    let (_, context) = Server::new(vec![()]).keep_alive(false).handle(());
    let mut server = serve_with(&context, usize::MAX);
    assert!(!server.conn.keep_alive_enabled);
    let res = server.send(b"GET / HTTP/1.1\r\nConnection: keep-alive\r\n\r\n");
    assert_eq!(res, Async::Ready(()));
    assert!(matches!(server.conn.state, hyper::http::conn::State::Closed));
}

#[test]
fn pipelined_requests_are_answered_in_turn() {
    let mut server = serve();
    let res = server.send(b"GET /1 HTTP/1.1\r\n\r\nGET /2 HTTP/1.1\r\nConnection: close\r\n\r\n");
    // the second request came with the first, and is answered without another read
    assert_eq!(res, Async::Ready(()));
    assert_eq!(*server.made.borrow(), 2);
    assert_eq!(server.output().matches("HTTP/1.1 200 OK").count(), 2);
}

#[test]
fn poll_takes_no_more_turns_than_it_may() {
    let mut server = serve();
    server.wire().input.extend(b"GET /1 HTTP/1.1\r\n\r\nGET /2 HTTP/1.1\r\n\r\n".iter());
    assert_eq!(server.poll_for(0), None);
    assert_eq!(*server.made.borrow(), 0);
    assert_eq!(server.poll_for(3), None);
    assert_eq!(*server.made.borrow(), 2);
    assert_eq!(server.output().matches("HTTP/1.1 200 OK").count(), 1);
    // the fourth turn ends the second transaction, the fifth finds nothing more to do
    assert_eq!(server.poll_for(2), Some(Async::NotReady));
    assert_eq!(server.output().matches("HTTP/1.1 200 OK").count(), 2);
}

#[test]
fn turns_follow_one_another() {
    let mut server = serve();
    assert_eq!(server.tick(), Some(Async::NotReady));
    server.wire().input.extend(b"GET / HTTP/1.1\r\nConnection: close\r\n\r\n".iter());
    assert_eq!(server.tick(), None);
    assert_eq!(*server.made.borrow(), 1);
    assert_eq!(server.output(), "");
    assert_eq!(server.tick(), None);
    assert!(server.output().starts_with("HTTP/1.1 200 OK"));
    assert_eq!(server.tick(), Some(Async::Ready(())));
}

#[test]
fn malformed_head_is_handled_and_closes() {
    let mut server = serve();
    let res = server.send(b"nonsense\r\n\r\n");
    assert_eq!(res, Async::Ready(()));
    assert_eq!(*server.made.borrow(), 1);
}

#[test]
fn undecodable_body_is_handled_and_closes() {
    let mut server = serve();
    let res = server.send(b"GET / HTTP/1.1\r\nContent-Length: many\r\n\r\n");
    assert_eq!(res, Async::Ready(()));
    assert_eq!(*server.made.borrow(), 1);
}

#[test]
fn other_version_closes_without_a_handler() {
    let mut server = serve();
    let res = server.send(b"GET / HTTP/2.0\r\n\r\n");
    assert_eq!(res, Async::Ready(()));
    assert_eq!(*server.made.borrow(), 0);
    assert_eq!(server.output(), "");
}

#[test]
fn refused_transaction_closes() {
    let (_, context) = Server::new(vec![()]).handle(());
    let mut server = serve_with(&context, 0);
    let res = server.send(b"GET / HTTP/1.1\r\n\r\n");
    assert_eq!(res, Async::Ready(()));
    assert_eq!(server.output(), "");
    // and stays closed
    assert_eq!(server.send(b"GET / HTTP/1.1\r\n\r\n"), Async::Ready(()));
}

#[test]
fn half_a_head_waits() {
    let mut server = serve();
    assert_eq!(server.send(b"GET / HTTP/1.1\r\nHo"), Async::NotReady);
    assert_eq!(*server.made.borrow(), 0);
    assert_eq!(server.send(b"st: x\r\n\r\n"), Async::NotReady);
    assert_eq!(*server.made.borrow(), 1);
    assert_eq!(*server.conn.key(), 7);
}

#[test]
fn half_a_body_waits() {
    let mut server = serve();
    assert_eq!(
        server.send(b"POST / HTTP/1.1\r\nConnection: close\r\nContent-Length: 4\r\n\r\nab"),
        Async::NotReady
    );
    assert_eq!(server.body(), b"ab");
    assert_eq!(server.output(), "");
    assert_eq!(server.send(b"cd"), Async::Ready(()));
    assert_eq!(server.body(), b"abcd");
}

#[test]
fn stalled_ending_does_not_finish() {
    let mut server = serve();
    server.wire().stalled = true;
    let res = server.send(b"GET / HTTP/1.1\r\nConnection: close\r\n\r\n");
    assert_eq!(res, Async::NotReady);
    assert_eq!(server.output(), "");
}

#[test]
fn idle_connection_is_closed() {
    let mut server = serve();
    assert_eq!(server.poll(), Async::NotReady);
    server.conn.close_idle();
    assert_eq!(server.poll(), Async::Ready(()));
}

#[test]
fn busy_connection_is_not_idle() {
    let mut server = serve();
    server.send(b"POST / HTTP/1.1\r\nConnection: close\r\nContent-Length: 4\r\n\r\nab");
    server.conn.close_idle();
    assert_eq!(server.poll(), Async::NotReady);
    assert_eq!(server.send(b"cd"), Async::Ready(()));
}
