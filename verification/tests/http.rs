//! Heads, buffers, bodies and texts.
use hyper::error::nonblocking;
use hyper::http::h1;
use hyper::http::{
    parse, should_keep_alive, to_decimal, write_atomic, BufReader, Buffer, Decoder, EncodedHead,
    Encoder, Http1Transaction, Io, MessageHead, ParseResult, RawStatus, RequestHead, RequestLine,
    ResponseHead, Seed, Trans,
    WriteBuf, MAX_BUFFER_SIZE,
};
use hyper::{Connection, ConnectionOption, Error, ErrorKind, Headers, HttpVersion, IoError};

#[test]
fn test_should_keep_alive() {
    let mut headers = Headers::new();

    assert!(!should_keep_alive(HttpVersion::Http10, &headers));
    assert!(should_keep_alive(HttpVersion::Http11, &headers));

    headers.set(Connection::close());
    assert!(!should_keep_alive(HttpVersion::Http10, &headers));
    assert!(!should_keep_alive(HttpVersion::Http11, &headers));

    headers.set(Connection::keep_alive());
    assert!(should_keep_alive(HttpVersion::Http10, &headers));
    assert!(should_keep_alive(HttpVersion::Http11, &headers));
}

#[test]
fn should_keep_alive_with_several_options() {
    let mut headers = Headers::new();
    headers.set(Connection(vec![
        ConnectionOption::ConnectionHeader("upgrade".to_string()),
        ConnectionOption::Close,
        ConnectionOption::KeepAlive,
    ]));
    assert!(should_keep_alive(HttpVersion::Http10, &headers));
    assert!(!should_keep_alive(HttpVersion::Http11, &headers));

    headers.set(Connection(vec![ConnectionOption::ConnectionHeader("upgrade".to_string())]));
    assert!(!should_keep_alive(HttpVersion::Http10, &headers));
    assert!(should_keep_alive(HttpVersion::Http11, &headers));
}

#[test]
fn other_versions_live_on() {
    let mut headers = Headers::new();
    assert!(should_keep_alive(HttpVersion::Http09, &headers));
    headers.set(Connection::close());
    assert!(should_keep_alive(HttpVersion::Http09, &headers));
    assert!(should_keep_alive(HttpVersion::Http20, &headers));
}

#[test]
fn head_asks_its_own_version_and_headers() {
    let mut head: MessageHead<u8> = MessageHead::default();
    assert_eq!(head.version, HttpVersion::Http11);
    assert_eq!(head.subject, 0);
    assert_eq!(head.headers, Headers::new());
    assert!(head.should_keep_alive());
    head.version = HttpVersion::Http10;
    assert!(!head.should_keep_alive());
    head.headers.set(Connection::keep_alive());
    assert!(head.should_keep_alive());
}

#[test]
fn connection_options_are_found() {
    assert!(Connection::close().contains_close());
    assert!(!Connection::close().contains_keep_alive());
    assert!(Connection::keep_alive().contains_keep_alive());
    assert!(!Connection::keep_alive().contains_close());
    assert!(!Connection(vec![]).contains_close());
}

#[test]
fn header_get_gives_what_was_set_last() {
    let mut headers = Headers::default();
    assert_eq!(headers.get(), None);
    headers.set(Connection::close());
    headers.set(Connection::keep_alive());
    assert_eq!(headers.get(), Some(&Connection::keep_alive()));
}

#[test]
fn only_would_block_is_no_failure() {
    let other = IoError::new(ErrorKind::Other, "reset");
    assert_eq!(nonblocking(Ok(3)), Ok(Some(3)));
    assert_eq!(nonblocking(Ok(0)), Ok(Some(0)));
    assert_eq!(nonblocking(Err(IoError::new(ErrorKind::WouldBlock, "wait"))), Ok(None));
    assert_eq!(nonblocking(Err(other)), Err(IoError::new(ErrorKind::Other, "reset")));
}

#[test]
fn status_texts() {
    assert_eq!(RawStatus::default(), RawStatus(200, "OK".to_string()));
    assert_eq!(RawStatus::default().to_string(), "200 OK");
    assert_eq!(RawStatus::from_status(404, Some("Not Found")).to_string(), "404 Not Found");
    assert_eq!(RawStatus::from_status(799, None), RawStatus(799, String::new()));
    assert_eq!(RawStatus::from_status(799, None).to_string(), "799 ");
}

#[test]
fn request_line_text() {
    let line = RequestLine("GET".to_string(), "/quux".to_string());
    assert_eq!(line.to_string(), "GET /quux");
}

#[test]
fn heads_of_requests_and_responses() {
    let line = RequestLine("GET".to_string(), "/".to_string());
    let request = RequestHead {
        version: HttpVersion::Http10,
        subject: line,
        headers: Headers::new(),
    };
    assert!(!request.should_keep_alive());
    let response = ResponseHead::default();
    assert_eq!(response.subject, RawStatus::default());
    assert!(response.should_keep_alive());
}

#[test]
fn decimal_numbers() {
    for n in [0, 1, 9, 10, 42, 100, 999, 1000, 65535] {
        assert_eq!(to_decimal(n), n.to_string());
    }
}

#[test]
fn pieces_are_written_as_one() {
    let write = |mut calls: Vec<Vec<u8>>, bytes: &[u8]| {
        calls.push(bytes.to_vec());
        (calls, Ok(bytes.len()))
    };
    let (calls, res) = write_atomic(Vec::new(), write, &[b"foo", b"", b" ba", b"r"]);
    assert_eq!(res, Ok(7));
    assert_eq!(calls, vec![b"foo bar".to_vec()]);
    let none: [&[u8]; 0] = [];
    assert_eq!(write_atomic(Vec::new(), write, &none), (vec![vec![]], Ok(0)));
}

#[test]
fn write_buf_counts_what_has_gone() {
    let mut buf = WriteBuf::new(b"abc".to_vec());
    assert_eq!(buf.pos, 0);
    assert_eq!(buf.unwritten(), b"abc");
    assert!(!buf.is_written());
    buf.pos = 2;
    assert_eq!(buf.unwritten(), b"c");
    buf.pos = 3;
    assert_eq!(buf.unwritten(), b"");
    assert!(buf.is_written());
}

#[test]
fn buffer_consumes_from_the_front() {
    let mut buf = Buffer { bytes: b"abcdef".to_vec() };
    assert_eq!(buf.len(), 6);
    buf.consume(2);
    assert_eq!(buf.bytes(), b"cdef");
    buf.consume(0);
    assert_eq!(buf.bytes(), b"cdef");
    buf.consume(9);
    assert_eq!(buf.bytes(), b"");
    assert_eq!(Buffer::new().len(), 0);
}

/// A head is a line that ends in `;`.
struct Lines;

impl Http1Transaction for Lines {
    type Incoming = String;
    type Outgoing = String;
    type Decode = ();
    type Encode = ();

    fn parse(bytes: &[u8]) -> ParseResult<String> {
        match bytes.iter().position(|b| *b == b';') {
            None => Ok(None),
            Some(0) => Err(Error::Head("empty".to_string())),
            Some(n) => {
                let subject = String::from_utf8(bytes[..n].to_vec()).unwrap();
                let head = MessageHead {
                    version: HttpVersion::Http11,
                    subject,
                    headers: Headers::new(),
                };
                Ok(Some((head, n + 1)))
            }
        }
    }

    fn decoder(_: &MessageHead<String>) -> Result<h1::Decoder<()>, Error> {
        Ok(h1::Decoder { codec: (), eof: true })
    }

    fn encode(head: &MessageHead<String>) -> EncodedHead<String, ()> {
        EncodedHead {
            head: MessageHead {
                version: head.version,
                subject: head.subject.clone(),
                headers: Headers::new(),
            },
            bytes: head.subject.clone().into_bytes(),
            encoder: h1::Encoder { codec: (), eof: true, closed: false, prefix: None },
        }
    }
}

fn io(bytes: &[u8]) -> Io {
    Io { buf: Buffer { bytes: bytes.to_vec() } }
}

/// Counts how often it is read from.
type Count = u32;

type Received = (Buffer, Count, Result<usize, IoError>);

fn more(bytes: &'static [u8]) -> impl FnOnce(Buffer, Count) -> Received {
    move |mut buf, count| {
        buf.bytes.extend_from_slice(bytes);
        (buf, count + 1, Ok(bytes.len()))
    }
}

fn fails(kind: ErrorKind) -> impl FnOnce(Buffer, Count) -> Received {
    move |buf, count| (buf, count + 1, Err(IoError::new(kind, "failed")))
}

/// Parses a line, with one read.
fn line(
    io: &mut Io,
    read_from: impl FnOnce(Buffer, Count) -> Received,
) -> Result<Option<MessageHead<String>>, Error> {
    let (count, res) = io.parse::<Count, Lines, _>(0, read_from);
    assert_eq!(count, 1);
    res
}

#[test]
fn parse_hands_the_bytes_to_the_format() {
    let (head, n) = parse::<Lines>(b"ab;c").unwrap().unwrap();
    assert_eq!((head.subject.as_str(), n), ("ab", 3));
}

#[test]
fn parsed_head_is_taken_off_the_front() {
    let mut io = io(b"on");
    let head = line(&mut io, more(b"e;two;")).unwrap().unwrap();
    assert_eq!(head.subject, "one");
    assert_eq!(io.buf.bytes(), b"two;");
    let head = line(&mut io, fails(ErrorKind::WouldBlock)).unwrap().unwrap();
    assert_eq!(head.subject, "two");
    assert_eq!(io.buf.bytes(), b"");
}

#[test]
fn unfinished_head_waits() {
    let mut io = io(b"");
    assert!(matches!(line(&mut io, more(b"on")), Ok(None)));
    assert!(matches!(line(&mut io, fails(ErrorKind::WouldBlock)), Ok(None)));
    assert_eq!(io.buf.bytes(), b"on");
}

#[test]
fn end_of_input_is_an_error() {
    let mut io = io(b"on");
    let error = IoError::new(ErrorKind::UnexpectedEof, "parse eof");
    assert_eq!(line(&mut io, more(b"")).err(), Some(Error::Io(error)));
    assert_eq!(io.buf.bytes(), b"on");
}

#[test]
fn failed_read_is_an_error() {
    let mut io = io(b"one;");
    let error = IoError::new(ErrorKind::Other, "failed");
    assert_eq!(line(&mut io, fails(ErrorKind::Other)).err(), Some(Error::Io(error)));
    assert_eq!(io.buf.bytes(), b"one;");
}

#[test]
fn malformed_head_is_an_error() {
    let mut io = io(b"");
    let error = Error::Head("empty".to_string());
    assert_eq!(line(&mut io, more(b";x")).err(), Some(error));
    assert_eq!(io.buf.bytes(), b";x");
}

#[test]
fn head_that_outgrows_the_buffer_is_an_error() {
    assert_eq!(MAX_BUFFER_SIZE, 417792);
    let mut io = io(&vec![b'x'; MAX_BUFFER_SIZE - 2]);
    assert!(matches!(line(&mut io, more(b"x")), Ok(None)));
    assert_eq!(line(&mut io, more(b"x")).err(), Some(Error::TooLarge));
    // a head that ends is taken, however long it is
    let head = line(&mut io, more(b";")).unwrap().unwrap();
    assert_eq!(head.subject.len(), MAX_BUFFER_SIZE);
}

#[test]
fn decoder_reads_through_its_codec() {
    let mut codec = h1::Decoder { codec: 0u8, eof: false };
    let mut port = 41u32;
    let mut buf = [0; 4];
    {
        let mut decoder = Decoder::h1(&mut codec, Trans::Port(&mut port));
        assert_eq!(*decoder.get_ref(), 41);
        let res = decoder.read(&mut buf, |d, t, b| {
            d.eof = true;
            if let Trans::Port(port) = t {
                **port += 1;
            }
            b[1] = 9;
            Ok(2)
        });
        assert_eq!(res, Ok(2));
        let res = decoder.try_read(&mut buf, |_, _, _| {
            Err(IoError::new(ErrorKind::WouldBlock, "wait"))
        });
        assert_eq!(res, Ok(None));
        assert_eq!(decoder.try_read(&mut buf, |_, _, _| Ok(1)), Ok(Some(1)));
    }
    assert!(codec.is_eof());
    assert_eq!(port, 42);
    assert_eq!(buf, [0, 9, 0, 0]);
}

#[test]
fn trans_reads_where_it_should() {
    let mut buffered = Buffer { bytes: b"xy".to_vec() };
    let mut port = 5u32;
    let mut out = [0; 2];
    let mut trans = Trans::Port(&mut port);
    let res = trans.read(&mut out, |_, _| Ok(1), |_, _| Ok(2));
    assert_eq!(res, Ok(1));
    let mut trans = Trans::Buf(BufReader { buf: &mut buffered, reader: &mut port });
    assert_eq!(*trans.get_ref(), 5);
    let res = trans.read(
        &mut out,
        |_, _| Ok(1),
        |r, out| {
            out[0] = r.buf.bytes()[0];
            Ok(2)
        },
    );
    assert_eq!(res, Ok(2));
    assert_eq!(out, [b'x', 0]);
}

#[test]
fn encoder_writes_until_it_is_closed() {
    let mut codec = h1::Encoder { codec: (), eof: false, closed: false, prefix: None };
    let mut port: Vec<u8> = Vec::new();
    {
        let mut encoder = Encoder::h1(&mut codec, &mut port);
        let res = encoder.write(b"abc", |_, t, data| {
            t.extend_from_slice(data);
            Ok(data.len())
        });
        assert_eq!(res, Ok(3));
        assert_eq!(encoder.get_ref().as_slice(), b"abc");
        let unreached = |_: &mut h1::Encoder<()>, _: &mut Vec<u8>, _: &[u8]| panic!("reached");
        assert_eq!(encoder.write(b"", unreached), Ok(0));
        let res = encoder.try_write(b"x", |_, _, _| {
            Err(IoError::new(ErrorKind::WouldBlock, "wait"))
        });
        assert_eq!(res, Ok(None));
        encoder.close();
        assert_eq!(encoder.write(b"def", unreached), Ok(0));
        assert_eq!(encoder.try_write(b"def", unreached), Ok(Some(0)));
    }
    assert!(codec.is_closed());
    assert_eq!(port, b"abc");
}

#[test]
fn pending_prefix_is_not_the_end() {
    let mut encoder = h1::Encoder { codec: (), eof: true, closed: false, prefix: None };
    assert!(encoder.is_eof());
    encoder.prefix(WriteBuf::new(b"head".to_vec()));
    assert!(!encoder.is_eof());
    encoder.close();
    assert!(encoder.is_closed());
}

#[test]
fn seed_gives_its_key() {
    let key = "10.0.0.1:80".to_string();
    assert_eq!(Seed(&key).key(), "10.0.0.1:80");
}
