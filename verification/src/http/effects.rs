//! What heads, texts, buffers and parsing come to, told by their fields and bytes.
use crate::error::{nonblocking, Error, ErrorKind, IoError};
use crate::header::{Connection, ConnectionOption, Headers};
use crate::http::body::{BufReader, Decoder, Encoder, Trans};
use crate::http::{
    concatenated, decimal, digit, h1, parse, should_keep_alive, to_decimal, write_atomic, Buffer,
    Http1Transaction, Io, MessageHead, ParseResult, RawStatus, RequestLine, WriteBuf,
};
use crate::version::HttpVersion;
use vstd::prelude::*;

verus! {

/// An HTTP/1.0 connection is kept alive exactly if `keep-alive` is among the options of its
/// `Connection` header, an HTTP/1.1 connection exactly unless `close` is, and any other is.
pub proof fn keep_alive_by_version_and_options(version: HttpVersion, headers: &Headers, kept: bool)
    requires
        call_ensures(should_keep_alive, (version, headers), kept),
    ensures
        version == HttpVersion::Http10 ==> kept == (headers.connection matches Some(c)
            && c.0@.contains(ConnectionOption::KeepAlive)),
        version == HttpVersion::Http11 ==> !kept == (headers.connection matches Some(c)
            && c.0@.contains(ConnectionOption::Close)),
        version == HttpVersion::Http09 || version == HttpVersion::Http20 ==> kept,
{
}

/// Whether a connection is kept alive depends on the version and the `Connection` header only,
/// whatever the other fields are.
pub proof fn other_fields_do_not_matter(
    version: HttpVersion,
    headers: &Headers,
    others: &Headers,
    kept: bool,
    also: bool,
)
    requires
        headers.connection == others.connection,
        call_ensures(should_keep_alive, (version, headers), kept),
        call_ensures(should_keep_alive, (version, others), also),
    ensures
        kept == also,
{
}

/// A client that asks to close is heard, and one that speaks HTTP/1.1 and does not is kept: asking
/// for one thing more never keeps an HTTP/1.1 connection alive, nor closes an HTTP/1.0 one.
pub proof fn more_options_only_ask_for_more(
    headers: &Headers,
    more: &Headers,
    options: Connection,
    all: Connection,
    option: ConnectionOption,
    kept10: bool,
    kept11: bool,
    more10: bool,
    more11: bool,
)
    requires
        headers.connection == Some(options),
        more.connection == Some(all),
        all.0@ == options.0@.push(option),
        call_ensures(should_keep_alive, (HttpVersion::Http10, headers), kept10),
        call_ensures(should_keep_alive, (HttpVersion::Http11, headers), kept11),
        call_ensures(should_keep_alive, (HttpVersion::Http10, more), more10),
        call_ensures(should_keep_alive, (HttpVersion::Http11, more), more11),
    ensures
        more10 == (kept10 || option is KeepAlive),
        more11 == (kept11 && !(option is Close)),
{
    let options = options.0@;
    let all = all.0@;
    assert forall|o: ConnectionOption| all.contains(o) == (options.contains(o) || o == option) by {
        if options.contains(o) {
            let i = choose|i: int| 0 <= i < options.len() && options[i] == o;
            assert(all[i] == o);
        }
        if o == option {
            assert(all[all.len() - 1] == o);
        }
    }
}

/// A head decides by its own version and headers, and a head that nothing was set in is of
/// HTTP/1.1, without headers.
pub proof fn head_decides_by_what_it_holds<S: Default>()
    ensures
        forall|head: &MessageHead<S>, kept: bool| #[trigger]
            call_ensures(MessageHead::<S>::should_keep_alive, (head,), kept) ==> kept == (
            match head.version {
                HttpVersion::Http10 => head.headers.connection matches Some(c) && c.0@.contains(
                    ConnectionOption::KeepAlive,
                ),
                HttpVersion::Http11 => !(head.headers.connection matches Some(c) && c.0@.contains(
                    ConnectionOption::Close,
                )),
                _ => true,
            }),
        forall|head: MessageHead<S>| #[trigger]
            call_ensures(<MessageHead<S> as Default>::default, (), head) ==> {
                &&& head.version == HttpVersion::Http11
                &&& head.headers.connection is None
                &&& head.headers.raw@.len() == 0
                &&& call_ensures(S::default, (), head.subject)
            },
{
}

/// The options of a `Connection` header are those it was made of.
pub proof fn options_are_found_where_they_are()
    ensures
        forall|c: &Connection, found: bool| #[trigger]
            call_ensures(Connection::contains_keep_alive, (c,), found) ==> (found <==> exists|i: int|
                0 <= i < c.0@.len() && #[trigger] c.0@[i] == ConnectionOption::KeepAlive),
        forall|c: &Connection, found: bool| #[trigger]
            call_ensures(Connection::contains_close, (c,), found) ==> (found <==> exists|i: int|
                0 <= i < c.0@.len() && #[trigger] c.0@[i] == ConnectionOption::Close),
        forall|c: Connection| #[trigger]
            call_ensures(Connection::keep_alive, (), c) ==> c.0@.len() == 1 && c.0@[0]
                == ConnectionOption::KeepAlive,
        forall|c: Connection| #[trigger]
            call_ensures(Connection::close, (), c) ==> c.0@.len() == 1 && c.0@[0]
                == ConnectionOption::Close,
{
}

/// What is got of the headers is what was set last, and setting it touches no other field.
pub proof fn header_is_what_was_set()
    ensures
        forall|headers: &mut Headers, c: Connection, out: ()| #[trigger]
            call_ensures(Headers::set, (headers, c), out) ==> (*final(headers)).connection == Some(
                c,
            ) && (*final(headers)).raw == (*headers).raw,
        forall|headers: &Headers, got: Option<&Connection>| #[trigger]
            call_ensures(Headers::get, (headers,), got) ==> match got {
                Some(c) => headers.connection == Some(*c),
                None => headers.connection is None,
            },
        forall|headers: Headers| #[trigger]
            call_ensures(Headers::new, (), headers) ==> headers.connection is None
                && headers.raw@.len() == 0,
        forall|headers: Headers| #[trigger]
            call_ensures(<Headers as Default>::default, (), headers) ==> headers.connection is None
                && headers.raw@.len() == 0,
        forall|version: HttpVersion| #[trigger]
            call_ensures(<HttpVersion as Default>::default, (), version) ==> version
                == HttpVersion::Http11,
{
}

/// What would have blocked is no failure; all else is as it was. An error is what it was made of.
pub proof fn only_blocking_is_no_failure(
    outcome: Result<usize, IoError>,
    res: Result<Option<usize>, IoError>,
)
    requires
        call_ensures(nonblocking, (outcome,), res),
    ensures
        outcome matches Ok(n) ==> res == Ok::<Option<usize>, IoError>(Some(n)),
        outcome matches Err(e) ==> (e.kind == ErrorKind::WouldBlock ==> res == Ok::<
            Option<usize>,
            IoError,
        >(None)) && (e.kind != ErrorKind::WouldBlock ==> res == Err::<Option<usize>, IoError>(e)),
        forall|kind: ErrorKind, message: &str, error: IoError| #[trigger]
            call_ensures(IoError::new, (kind, message), error) ==> error.kind == kind
                && error.message@ == message@,
{
}

/// The number that a sequence of decimal digits stands for.
pub open spec fn numeral(text: Seq<char>) -> int
    decreases text.len(),
{
    if text.len() == 0 {
        0
    } else {
        numeral(text.drop_last()) * 10 + (text.last() as int - '0' as int)
    }
}

/// A text is the decimal notation of a number: digits only, no zero in front of others, and they
/// stand for the number.
pub open spec fn is_notation(text: Seq<char>, n: int) -> bool {
    &&& text.len() > 0
    &&& forall|i: int| 0 <= i < text.len() ==> '0' as int <= #[trigger] text[i] as int <= '9' as int
    &&& text.len() > 1 ==> text[0] != '0'
    &&& numeral(text) == n
}

/// A decimal digit is its own notation.
proof fn digit_is_notation(n: u16)
    requires
        n < 10,
    ensures
        digit(n).len() == 1,
        digit(n)[0] as int == '0' as int + n,
{
    reveal_strlit("0");
    reveal_strlit("1");
    reveal_strlit("2");
    reveal_strlit("3");
    reveal_strlit("4");
    reveal_strlit("5");
    reveal_strlit("6");
    reveal_strlit("7");
    reveal_strlit("8");
    reveal_strlit("9");
}

/// The decimal notation of a number stands for it.
proof fn decimal_is_notation(n: u16)
    ensures
        is_notation(decimal(n), n as int),
        n > 0 ==> decimal(n)[0] != '0',
    decreases n,
{
    let text = decimal(n);
    digit_is_notation(n % 10);
    if n < 10 {
        assert(text.drop_last() =~= Seq::empty());
        assert(numeral(text.drop_last()) == 0);
    } else {
        decimal_is_notation(n / 10);
        assert(text.drop_last() =~= decimal(n / 10));
        assert(text.last() == digit(n % 10)[0]);
        assert(n == (n / 10) * 10 + n % 10);
        assert(text[0] == decimal(n / 10)[0]);
    }
}

/// A number is written in its decimal notation.
pub proof fn numbers_are_written_in_decimal(n: u16, text: String)
    requires
        call_ensures(to_decimal, (n,), text),
    ensures
        is_notation(text@, n as int),
{
    decimal_is_notation(n);
}

/// The text of a status is its code in decimal, a space, and its reason.
pub proof fn status_text_is_code_and_reason(status: &RawStatus, text: String)
    requires
        call_ensures(RawStatus::to_string, (status,), text),
    ensures
        exists|code: Seq<char>| #[trigger]
            is_notation(code, status.0 as int) && text@ == code + seq![' '] + status.1@,
{
    decimal_is_notation(status.0);
    reveal_strlit(" ");
    assert(" "@ =~= seq![' ']);
    assert(is_notation(decimal(status.0), status.0 as int));
}

/// A status is made of its code and its canonical reason, if it has one; the status of a response
/// that none was set in is `200 OK`.
pub proof fn status_is_what_it_was_made_of()
    ensures
        forall|code: u16, reason: Option<&str>, status: RawStatus| #[trigger]
            call_ensures(RawStatus::from_status, (code, reason), status) ==> status.0 == code
                && match reason {
                Some(r) => status.1@ == r@,
                None => status.1@.len() == 0,
            },
        forall|status: RawStatus| #[trigger]
            call_ensures(<RawStatus as Default>::default, (), status) ==> status.0 == 200
                && status.1@ == seq!['O', 'K'],
{
    reveal_strlit("OK");
    assert("OK"@ =~= seq!['O', 'K']);
}

/// The text of a request line is its method, a space, and its target.
pub proof fn request_line_text_is_method_and_target(line: &RequestLine, text: String)
    requires
        call_ensures(RequestLine::to_string, (line,), text),
    ensures
        text@ == line.0@ + seq![' '] + line.1@,
{
    reveal_strlit(" ");
    assert(" "@ =~= seq![' ']);
}

/// Pieces put together are as long as all of them, and hold each of them, in order.
proof fn concatenated_is_flat(pieces: Seq<&[u8]>)
    ensures
        concatenated(pieces) == pieces.map_values(|piece: &[u8]| piece@).flatten(),
    decreases pieces.len(),
{
    let all = pieces.map_values(|piece: &[u8]| piece@);
    all.lemma_flatten_and_flatten_alt_are_equivalent();
    if pieces.len() > 0 {
        concatenated_is_flat(pieces.drop_last());
        let front = pieces.drop_last().map_values(|piece: &[u8]| piece@);
        front.lemma_flatten_and_flatten_alt_are_equivalent();
        assert(all.drop_last() =~= front);
    }
}

/// Pieces are written as one: `write` is called once, on all of their bytes in order, and gives what
/// the caller gets.
pub proof fn pieces_are_written_as_one<
    T,
    W: FnOnce(T, &[u8]) -> (T, Result<usize, IoError>),
>(dst: T, write: W, bufs: &[&[u8]], out: (T, Result<usize, IoError>))
    requires
        call_ensures(write_atomic::<T, W>, (dst, write, bufs), out),
    ensures
        exists|x: &[u8]| #[trigger]
            call_ensures(write, (dst, x), out) && x@ == bufs@.map_values(
                |piece: &[u8]| piece@,
            ).flatten(),
{
    concatenated_is_flat(bufs@);
}

/// A buffer that is written out knows how much has gone: none at first, and all once its position
/// has come to its end.
pub proof fn position_tells_what_has_gone<T>()
    ensures
        forall|bytes: T, buf: WriteBuf<T>| #[trigger]
            call_ensures(WriteBuf::<T>::new, (bytes,), buf) ==> buf.bytes == bytes && buf.pos == 0,
        forall|buf: &WriteBuf<Vec<u8>>, done: bool| #[trigger]
            call_ensures(WriteBuf::<Vec<u8>>::is_written, (buf,), done) ==> done == (buf.pos
                >= buf.bytes@.len()),
        forall|buf: &WriteBuf<Vec<u8>>, rest: &[u8]| #[trigger]
            call_ensures(WriteBuf::<Vec<u8>>::unwritten, (buf,), rest) && buf.pos
                <= buf.bytes@.len() ==> buf.bytes@ == buf.bytes@.take(buf.pos as int) + rest@,
{
    assert forall|buf: &WriteBuf<Vec<u8>>, rest: &[u8]| #[trigger]
        call_ensures(WriteBuf::<Vec<u8>>::unwritten, (buf,), rest) && buf.pos
            <= buf.bytes@.len() implies buf.bytes@ == buf.bytes@.take(buf.pos as int) + rest@ by {
        assert(buf.bytes@ =~= buf.bytes@.take(buf.pos as int) + buf.bytes@.skip(buf.pos as int));
    }
}

/// What is consumed of a buffer is gone from its front, and the rest is there as it was.
pub proof fn consumed_is_gone_from_the_front()
    ensures
        forall|buf: &mut Buffer, n: usize, out: ()| #[trigger]
            call_ensures(Buffer::consume, (buf, n), out) ==> if n < (*buf).bytes@.len() {
                (*final(buf)).bytes@ == (*buf).bytes@.subrange(n as int, (*buf).bytes@.len() as int)
            } else {
                (*final(buf)).bytes@.len() == 0
            },
        forall|buf: Buffer| #[trigger]
            call_ensures(Buffer::new, (), buf) ==> buf.bytes@.len() == 0,
        forall|buf: &Buffer, len: usize| #[trigger]
            call_ensures(Buffer::len, (buf,), len) ==> len == buf.bytes@.len(),
        forall|buf: &Buffer, bytes: &[u8]| #[trigger]
            call_ensures(Buffer::bytes, (buf,), bytes) ==> bytes@ == buf.bytes@,
{
}

/// Receiving is one read into what was received before, and one parse of all that is there then,
/// unless the read failed or found the end. A head is handed out and its bytes are gone, however
/// long it was; without one, it is to be waited for, unless the buffer is full. Every failure is
/// handed on as it is, and costs no byte.
pub proof fn heads_are_parsed_off_what_was_received<
    T,
    X: Http1Transaction,
    F: FnOnce(Buffer, T) -> (Buffer, T, Result<usize, IoError>),
>()
    ensures
        forall|
            io: &mut Io,
            transport: T,
            read_from: F,
            out: (T, Result<Option<MessageHead<X::Incoming>>, Error>),
        | #[trigger]
            call_ensures(Io::parse::<T, X, F>, (io, transport, read_from), out) ==> exists|
                buf: Buffer,
                read: Result<usize, IoError>,
            |
                {
                    &&& #[trigger] call_ensures(
                        read_from,
                        ((*io).buf, transport),
                        (buf, out.0, read),
                    )
                    &&& match read {
                        Ok(0) => {
                            &&& (*final(io)).buf == buf
                            &&& out.1 matches Err(Error::Io(e)) && e.kind
                                == ErrorKind::UnexpectedEof && e.message@ == "parse eof"@
                        },
                        Err(e) if e.kind != ErrorKind::WouldBlock => {
                            &&& (*final(io)).buf == buf
                            &&& out.1 matches Err(Error::Io(f)) && f == e
                        },
                        _ => exists|rdr: &[u8], parsed: ParseResult<X::Incoming>|
                            {
                                &&& #[trigger] call_ensures(X::parse, (rdr,), parsed)
                                &&& rdr@ == buf.bytes@
                                &&& match parsed {
                                    Ok(Some((head, len))) => {
                                        &&& out.1 matches Ok(Some(h)) && h == head
                                        &&& len <= buf.bytes@.len() ==> buf.bytes@
                                            == buf.bytes@.take(len as int) + (*final(io)).buf.bytes@
                                        &&& len > buf.bytes@.len() ==> (
                                        *final(io)).buf.bytes@.len() == 0
                                    },
                                    Ok(None) => {
                                        &&& (*final(io)).buf.bytes@ == buf.bytes@
                                        &&& buf.bytes@.len() < 8192 + 4096 * 100 ==> (
                                        out.1 matches Ok(None))
                                        &&& buf.bytes@.len() >= 8192 + 4096 * 100 ==> (
                                        out.1 matches Err(Error::TooLarge))
                                    },
                                    Err(e) => {
                                        &&& (*final(io)).buf.bytes@ == buf.bytes@
                                        &&& out.1 matches Err(f) && f == e
                                    },
                                }
                            },
                    }
                },
        forall|rdr: &[u8], res: ParseResult<X::Incoming>| #[trigger]
            call_ensures(parse::<X>, (rdr,), res) ==> call_ensures(X::parse, (rdr,), res),
{
    assert forall|bytes: Seq<u8>, n: int| 0 <= n <= bytes.len() implies bytes == #[trigger] bytes.take(
        n,
    ) + bytes.skip(n) by {
        assert(bytes =~= bytes.take(n) + bytes.skip(n));
    }
}

/// Data reaches the transport by the encoder, unless there is none or the body was closed: then
/// nothing is taken, and nothing changes.
pub proof fn closed_body_takes_nothing<
    'a,
    E,
    T,
    F: FnOnce(&mut h1::Encoder<E>, &mut T, &[u8]) -> Result<usize, IoError>,
>()
    ensures
        forall|w: &mut Encoder<'a, E, T>, data: &[u8], encode: F, res: Result<usize, IoError>|
            #[trigger]
            call_ensures(Encoder::<'a, E, T>::write::<F>, (w, data, encode), res) ==> {
                &&& *final((*final(w)).0->H1_0) == *final((*w).0->H1_0)
                &&& *final((*final(w)).0->H1_1) == *final((*w).0->H1_1)
                &&& if data@.len() == 0 || (*(*w).0->H1_0).closed {
                    &&& res == Ok::<usize, IoError>(0)
                    &&& *(*final(w)).0->H1_0 == *(*w).0->H1_0
                    &&& *(*final(w)).0->H1_1 == *(*w).0->H1_1
                } else {
                    exists|e: &mut h1::Encoder<E>, t: &mut T|
                        {
                            &&& #[trigger] call_ensures(encode, (e, t, data), res)
                            &&& *e == *(*w).0->H1_0 && *final(e) == *(*final(w)).0->H1_0
                            &&& *t == *(*w).0->H1_1 && *final(t) == *(*final(w)).0->H1_1
                        }
                }
            },
        forall|
            w: &mut Encoder<'a, E, T>,
            data: &[u8],
            encode: F,
            res: Result<Option<usize>, IoError>,
        | #[trigger]
            call_ensures(Encoder::<'a, E, T>::try_write::<F>, (w, data, encode), res) ==> {
                &&& *final((*final(w)).0->H1_0) == *final((*w).0->H1_0)
                &&& *final((*final(w)).0->H1_1) == *final((*w).0->H1_1)
                &&& if data@.len() == 0 || (*(*w).0->H1_0).closed {
                    &&& res == Ok::<Option<usize>, IoError>(Some(0))
                    &&& *(*final(w)).0->H1_0 == *(*w).0->H1_0
                    &&& *(*final(w)).0->H1_1 == *(*w).0->H1_1
                } else {
                    exists|e: &mut h1::Encoder<E>, t: &mut T, outcome: Result<usize, IoError>|
                        {
                            &&& #[trigger] call_ensures(encode, (e, t, data), outcome)
                            &&& *e == *(*w).0->H1_0 && *final(e) == *(*final(w)).0->H1_0
                            &&& *t == *(*w).0->H1_1 && *final(t) == *(*final(w)).0->H1_1
                            &&& match outcome {
                                Ok(n) => res == Ok::<Option<usize>, IoError>(Some(n)),
                                Err(e) => if e.kind == ErrorKind::WouldBlock {
                                    res == Ok::<Option<usize>, IoError>(None)
                                } else {
                                    res == Err::<Option<usize>, IoError>(e)
                                },
                            }
                        }
                }
            },
        forall|w: &mut Encoder<'a, E, T>, out: ()| #[trigger]
            call_ensures(Encoder::<'a, E, T>::close, (w,), out) ==> {
                &&& *(*final(w)).0->H1_0 == (h1::Encoder { closed: true, ..*(*w).0->H1_0 })
                &&& *(*final(w)).0->H1_1 == *(*w).0->H1_1
                &&& *final((*final(w)).0->H1_0) == *final((*w).0->H1_0)
                &&& *final((*final(w)).0->H1_1) == *final((*w).0->H1_1)
            },
        forall|w: &Encoder<'a, E, T>, port: &T| #[trigger]
            call_ensures(Encoder::<'a, E, T>::get_ref, (w,), port) ==> *port == *(*w).0->H1_1,
        forall|e: &'a mut h1::Encoder<E>, t: &'a mut T, w: Encoder<'a, E, T>| #[trigger]
            call_ensures(Encoder::<'a, E, T>::h1, (e, t), w) ==> {
                &&& *w.0->H1_0 == *e && *final(w.0->H1_0) == *final(e)
                &&& *w.0->H1_1 == *t && *final(w.0->H1_1) == *final(t)
            },
{
}

/// A body is read by its decoder, from where it comes from, into the buffer, and the caller gets
/// what that gives; where it tries to, what would have blocked is no failure.
pub proof fn body_is_read_by_its_decoder<
    'a,
    D,
    T,
    F: FnOnce(&mut h1::Decoder<D>, &mut Trans<'a, T>, &mut [u8]) -> Result<usize, IoError>,
>()
    ensures
        forall|r: &mut Decoder<'a, D, T>, buf: &mut [u8], decode: F, res: Result<usize, IoError>|
            #[trigger]
            call_ensures(Decoder::<'a, D, T>::read::<F>, (r, buf, decode), res) ==> {
                &&& *final((*final(r)).0->H1_0) == *final((*r).0->H1_0)
                &&& exists|d: &mut h1::Decoder<D>, t: &mut Trans<'a, T>, b: &mut [u8]|
                    {
                        &&& #[trigger] call_ensures(decode, (d, t, b), res)
                        &&& *d == *(*r).0->H1_0 && *final(d) == *(*final(r)).0->H1_0
                        &&& *t == (*r).0->H1_1 && *final(t) == (*final(r)).0->H1_1
                        &&& b@ == buf@ && final(b)@ == final(buf)@
                    }
            },
        forall|
            r: &mut Decoder<'a, D, T>,
            buf: &mut [u8],
            decode: F,
            res: Result<Option<usize>, IoError>,
        | #[trigger]
            call_ensures(Decoder::<'a, D, T>::try_read::<F>, (r, buf, decode), res) ==> {
                &&& *final((*final(r)).0->H1_0) == *final((*r).0->H1_0)
                &&& exists|
                    d: &mut h1::Decoder<D>,
                    t: &mut Trans<'a, T>,
                    b: &mut [u8],
                    outcome: Result<usize, IoError>,
                |
                    {
                        &&& #[trigger] call_ensures(decode, (d, t, b), outcome)
                        &&& *d == *(*r).0->H1_0 && *final(d) == *(*final(r)).0->H1_0
                        &&& *t == (*r).0->H1_1 && *final(t) == (*final(r)).0->H1_1
                        &&& b@ == buf@ && final(b)@ == final(buf)@
                        &&& match outcome {
                            Ok(n) => res == Ok::<Option<usize>, IoError>(Some(n)),
                            Err(e) => if e.kind == ErrorKind::WouldBlock {
                                res == Ok::<Option<usize>, IoError>(None)
                            } else {
                                res == Err::<Option<usize>, IoError>(e)
                            },
                        }
                    }
            },
        forall|r: &Decoder<'a, D, T>, port: &T| #[trigger]
            call_ensures(Decoder::<'a, D, T>::get_ref, (r,), port) ==> match (*r).0->H1_1 {
                Trans::Port(t) => *port == *t,
                Trans::Buf(b) => *port == *b.reader,
            },
        forall|d: &'a mut h1::Decoder<D>, trans: Trans<'a, T>, r: Decoder<'a, D, T>| #[trigger]
            call_ensures(Decoder::<'a, D, T>::h1, (d, trans), r) ==> {
                &&& *r.0->H1_0 == *d && *final(r.0->H1_0) == *final(d)
                &&& r.0->H1_1 == trans
            },
{
}

/// A body that comes straight from the transport is read from it, and one of which some was buffered
/// from there; the transport is the same either way.
pub proof fn body_is_read_where_it_comes_from<
    'a,
    T,
    F: FnOnce(&mut T, &mut [u8]) -> Result<usize, IoError>,
    G: FnOnce(&mut BufReader<'a, T>, &mut [u8]) -> Result<usize, IoError>,
>()
    ensures
        forall|
            trans: &mut Trans<'a, T>,
            buf: &mut [u8],
            port: F,
            buffered: G,
            res: Result<usize, IoError>,
        | #[trigger]
            call_ensures(Trans::<'a, T>::read::<F, G>, (trans, buf, port, buffered), res) ==> {
                &&& (*trans) is Port ==> exists|t: &mut T, b: &mut [u8]|
                    {
                        &&& #[trigger] call_ensures(port, (t, b), res)
                        &&& (*final(trans)) is Port
                        &&& *t == *(*trans)->Port_0 && *final(t) == *(*final(trans))->Port_0
                        &&& b@ == buf@ && final(b)@ == final(buf)@
                    }
                &&& (*trans) is Buf ==> exists|r: &mut BufReader<'a, T>, b: &mut [u8]|
                    {
                        &&& #[trigger] call_ensures(buffered, (r, b), res)
                        &&& (*final(trans)) is Buf
                        &&& *r == (*trans)->Buf_0 && *final(r) == (*final(trans))->Buf_0
                        &&& b@ == buf@ && final(b)@ == final(buf)@
                    }
            },
        forall|trans: &Trans<'a, T>, port: &T| #[trigger]
            call_ensures(Trans::<'a, T>::get_ref, (trans,), port) ==> match *trans {
                Trans::Port(t) => *port == *t,
                Trans::Buf(b) => *port == *b.reader,
            },
{
}

/// Every version and header, outcome, number, status, buffer and byte is taken.
pub proof fn no_input_is_left_out()
    ensures
        forall|version: HttpVersion, headers: &Headers| #[trigger]
            call_requires(should_keep_alive, (version, headers)),
        forall|outcome: Result<usize, IoError>| #[trigger] call_requires(nonblocking, (outcome,)),
        forall|n: u16| #[trigger] call_requires(to_decimal, (n,)),
        forall|status: &RawStatus| #[trigger] call_requires(RawStatus::to_string, (status,)),
        forall|line: &RequestLine| #[trigger] call_requires(RequestLine::to_string, (line,)),
        forall|code: u16, reason: Option<&str>| #[trigger]
            call_requires(RawStatus::from_status, (code, reason)),
        forall|headers: &mut Headers, c: Connection| #[trigger]
            call_requires(Headers::set, (headers, c)),
        forall|buf: &mut Buffer, n: usize| #[trigger] call_requires(Buffer::consume, (buf, n)),
{
}

} // verus!
