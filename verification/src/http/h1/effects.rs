//! What each operation on a transaction does, told by the calls it makes and the fields it leaves.
use crate::error::{Async, Error, ErrorKind, IoError, Poll};
use crate::header::ConnectionOption;
use crate::http::conn::{TransactionHandler, TxnResult};
use crate::http::h1::laws::{appends, ending_goes_out_whole, ending_is_sent_once};
use crate::http::h1::txn::{
    flush_log, flushes, offered, taken, takes_bytes, write_ending, write_head,
};
use crate::http::h1::{
    Decoder, Encoder, Ending, Heads, Incoming, Reading, State, Txn, TxnIo, Writing,
};
use crate::http::{
    EncodedHead, Http1Transaction, Io, MessageHead, Transaction, WriteBuf,
};
use crate::version::HttpVersion;
use vstd::prelude::*;

verus! {

/// A piece of a response that is under way is handed to the body's encoder, with the destination,
/// and the caller gets what that gives, whether the connection is to be kept alive or not. The
/// response is over when the encoder has reached its end and sent what stood in front.
pub proof fn write_goes_through_the_encoder<
    X: Http1Transaction,
    T,
    F: FnOnce(Encoder<X::Encode>, T, &[u8]) -> (Encoder<X::Encode>, T, Result<usize, IoError>),
>()
    ensures
        forall|
            txn: &mut TxnIo<X>,
            dst: T,
            data: &[u8],
            encode: F,
            out: (T, Result<usize, IoError>),
        | #[trigger]
            call_ensures(TxnIo::<X>::write::<T, F>, (txn, dst, data, encode), out) && (
            *txn).state.writing is Body ==> exists|next: Encoder<X::Encode>|
                {
                    &&& #[trigger] call_ensures(
                        encode,
                        ((*txn).state.writing->Body_0, dst, data),
                        (next, out.0, out.1),
                    )
                    &&& (*final(txn)).io == (*txn).io
                    &&& (*final(txn)).heads == (*txn).heads
                    &&& (*final(txn)).state.keep_alive == (*txn).state.keep_alive
                    &&& (*final(txn)).state.reading == (*txn).state.reading
                    &&& if !next.eof || next.prefix is Some {
                        (*final(txn)).state.writing == Writing::<X::Encode>::Body(next)
                    } else if (*final(txn)).state.keep_alive {
                        (*final(txn)).state.writing is KeepAlive
                    } else {
                        (*final(txn)).state.writing is Closed
                    }
                },
{
}

/// The first piece of a response goes out behind its head: the head that was set is encoded, and
/// the body's encoder gets its bytes to send in front. The connection lives on only where it would
/// have anyway and the head lets it.
pub proof fn first_write_encodes_the_head<
    X: Http1Transaction,
    T,
    F: FnOnce(Encoder<X::Encode>, T, &[u8]) -> (Encoder<X::Encode>, T, Result<usize, IoError>),
>()
    ensures
        forall|
            txn: &mut TxnIo<X>,
            dst: T,
            data: &[u8],
            encode: F,
            out: (T, Result<usize, IoError>),
        | #[trigger]
            call_ensures(TxnIo::<X>::write::<T, F>, (txn, dst, data, encode), out) && ((
            *txn).state.writing is Init || (*txn).state.writing is Head) ==> exists|
                encoded: EncodedHead<X::Outgoing, X::Encode>,
                next: Encoder<X::Encode>,
            |
                {
                    &&& #[trigger] call_ensures(X::encode, (&(*txn).heads.outgoing,), encoded)
                    &&& #[trigger] call_ensures(
                        encode,
                        (
                            Encoder {
                                prefix: Some(WriteBuf { bytes: encoded.bytes, pos: 0 }),
                                ..encoded.encoder
                            },
                            dst,
                            data,
                        ),
                        (next, out.0, out.1),
                    )
                    &&& (*final(txn)).io == (*txn).io
                    &&& (*final(txn)).heads.incoming == (*txn).heads.incoming
                    &&& (*final(txn)).heads.outgoing == encoded.head
                    &&& (*final(txn)).state.reading == (*txn).state.reading
                    &&& (*final(txn)).state.keep_alive == ((*txn).state.keep_alive && (
                        match (*txn).heads.outgoing.version {
                            HttpVersion::Http10 => (*txn).heads.outgoing.headers.connection matches Some(
                                c,
                            ) && c.0@.contains(ConnectionOption::KeepAlive),
                            HttpVersion::Http11 => !((*txn).heads.outgoing.headers.connection matches Some(
                                c,
                            ) && c.0@.contains(ConnectionOption::Close)),
                            _ => true,
                        }))
                    &&& if !next.eof || next.prefix is Some {
                        (*final(txn)).state.writing == Writing::<X::Encode>::Body(next)
                    } else if (*final(txn)).state.keep_alive {
                        (*final(txn)).state.writing is KeepAlive
                    } else {
                        (*final(txn)).state.writing is Closed
                    }
                },
{
}

/// A response that is over takes nothing: the destination and the transaction are left alone.
pub proof fn write_after_the_end_does_nothing<
    X: Http1Transaction,
    T,
    F: FnOnce(Encoder<X::Encode>, T, &[u8]) -> (Encoder<X::Encode>, T, Result<usize, IoError>),
>()
    ensures
        forall|
            txn: &mut TxnIo<X>,
            dst: T,
            data: &[u8],
            encode: F,
            out: (T, Result<usize, IoError>),
        | #[trigger]
            call_ensures(TxnIo::<X>::write::<T, F>, (txn, dst, data, encode), out) && ((
            *txn).state.writing is KeepAlive || (*txn).state.writing is Closed) ==> {
                &&& out.0 == dst
                &&& out.1 == Ok::<usize, IoError>(0)
                &&& *final(txn) == *txn
            },
{
}

/// Where the encoder sends as many bytes as it says, a response that is under way grows by as many
/// bytes as the caller is told.
pub proof fn reported_bytes_are_sent<
    X: Http1Transaction,
    T,
    F: FnOnce(Encoder<X::Encode>, T, &[u8]) -> (Encoder<X::Encode>, T, Result<usize, IoError>),
>(size: spec_fn(T) -> nat, encode: F)
    requires
        forall|e: Encoder<X::Encode>, t: T, x: &[u8], f: Encoder<X::Encode>, u: T, n: usize|
            #[trigger]
            call_ensures(encode, (e, t, x), (f, u, Ok::<usize, IoError>(n))) ==> size(u) == size(t)
                + n,
    ensures
        forall|txn: &mut TxnIo<X>, dst: T, data: &[u8], out: (T, Result<usize, IoError>)| #[trigger]
            call_ensures(TxnIo::<X>::write::<T, F>, (txn, dst, data, encode), out) && (
            *txn).state.writing is Body ==> (out.1 matches Ok(n) ==> size(out.0) == size(dst) + n),
{
    write_goes_through_the_encoder::<X, T, F>();
}

/// A piece of a request that is under way is read by the body's decoder, from what was received and
/// from the source, into the buffer, and the caller gets what that gives, however far the response
/// has come. The request is over when the decoder has reached its end.
pub proof fn read_goes_through_the_decoder<
    X: Http1Transaction,
    T,
    B,
    F: FnOnce(Decoder<X::Decode>, Io, T, B) -> (
        Decoder<X::Decode>,
        Io,
        T,
        B,
        Result<usize, IoError>,
    ),
>()
    ensures
        forall|
            txn: &mut TxnIo<X>,
            src: T,
            buf: B,
            decode: F,
            out: (T, B, Result<usize, IoError>),
        | #[trigger]
            call_ensures(TxnIo::<X>::read::<T, B, F>, (txn, src, buf, decode), out) && (
            *txn).state.reading is Body ==> exists|next: Decoder<X::Decode>, io: Io|
                {
                    &&& #[trigger] call_ensures(
                        decode,
                        ((*txn).state.reading->Body_0, (*txn).io, src, buf),
                        (next, io, out.0, out.1, out.2),
                    )
                    &&& (*final(txn)).io == io
                    &&& (*final(txn)).heads == (*txn).heads
                    &&& (*final(txn)).state.keep_alive == (*txn).state.keep_alive
                    &&& (*final(txn)).state.writing == (*txn).state.writing
                    &&& if !next.eof {
                        (*final(txn)).state.reading == Reading::<X::Decode>::Body(next)
                    } else if (*txn).state.keep_alive {
                        (*final(txn)).state.reading is KeepAlive
                    } else {
                        (*final(txn)).state.reading is Closed
                    }
                },
{
}

/// A request that is over gives nothing: what was received, the source, the buffer and the
/// transaction are left alone.
pub proof fn read_after_the_end_does_nothing<
    X: Http1Transaction,
    T,
    B,
    F: FnOnce(Decoder<X::Decode>, Io, T, B) -> (
        Decoder<X::Decode>,
        Io,
        T,
        B,
        Result<usize, IoError>,
    ),
>()
    ensures
        forall|
            txn: &mut TxnIo<X>,
            src: T,
            buf: B,
            decode: F,
            out: (T, B, Result<usize, IoError>),
        | #[trigger]
            call_ensures(TxnIo::<X>::read::<T, B, F>, (txn, src, buf, decode), out) && ((
            *txn).state.reading is KeepAlive || (*txn).state.reading is Closed) ==> {
                &&& out.0 == src
                &&& out.1 == buf
                &&& out.2 == Ok::<usize, IoError>(0)
                &&& *final(txn) == *txn
            },
{
}

/// What ending a response comes to, of which nothing was written yet or which is incomplete: which
/// encoder is asked for what completes it, and what becomes of that.
proof fn ending_told<
    X: Http1Transaction,
    T,
    F: FnOnce(Encoder<X::Encode>) -> Option<Ending>,
    W: Fn(T, &[u8]) -> (T, Result<usize, IoError>),
>(before: TxnIo<X>, dst: T, finish: F, write: W, after: TxnIo<X>, out: T) -> (told: (
    TxnIo<X>,
    Option<Ending>,
    Ending,
    Poll<(), IoError>,
))
    requires
        before.ends_writing(dst, finish, write, after, out),
        before.state.writing is Init || before.state.writing is Head || (
        before.state.writing matches Writing::Body(encoder) && (!encoder.eof
            || encoder.prefix is Some)),
    ensures
        before.head_written(told.0),
        told.0.state.writing is Body,
        call_ensures(finish, (told.0.state.writing->Body_0,), told.1),
        after.io == told.0.io,
        after.heads == told.0.heads,
        after.state.reading == told.0.state.reading,
        after.state.keep_alive == told.0.state.keep_alive,
        match told.1 {
            None => out == dst && after.state.writing is Closed,
            Some(ending) => {
                &&& flushes(write, ending, dst, told.2, out, told.3)
                &&& match told.3 {
                    Ok(Async::Ready(_)) => if after.state.keep_alive {
                        after.state.writing is KeepAlive
                    } else {
                        after.state.writing is Closed
                    },
                    Ok(Async::NotReady) => after.state.writing == Writing::<X::Encode>::Ending(
                        told.2,
                    ),
                    Err(_) => after.state.writing is Closed,
                }
            },
        },
{
    let (mid, last) = choose|mid: TxnIo<X>, last: Option<(Ending, Poll<(), IoError>)>|
        {
            &&& #[trigger] before.head_written(mid)
            &&& after == TxnIo { state: #[trigger] mid.state.after_end_writing(last), ..mid }
            &&& match mid.state.writing {
                Writing::Body(encoder) if !encoder.complete() => match last {
                    None => out == dst && call_ensures(finish, (encoder,), None::<Ending>),
                    Some((ending, res)) => exists|before: Ending|
                        {
                            &&& #[trigger] call_ensures(finish, (encoder,), Some(before))
                            &&& flushes(write, before, dst, ending, out, res)
                        },
                },
                _ => out == dst,
            }
        };
    match last {
        None => (mid, None, arbitrary(), arbitrary()),
        Some((left, res)) => {
            let ending = choose|ending: Ending|
                {
                    &&& #[trigger] call_ensures(
                        finish,
                        (mid.state.writing->Body_0,),
                        Some(ending),
                    )
                    &&& flushes(write, ending, dst, left, out, res)
                };
            (mid, Some(ending), left, res)
        },
    }
}

/// What ending a response comes to of which nothing was written yet.
proof fn told_of_the_head<
    X: Http1Transaction,
    T,
    F: FnOnce(Encoder<X::Encode>) -> Option<Ending>,
    W: Fn(T, &[u8]) -> (T, Result<usize, IoError>),
>()
    ensures
        forall|before: TxnIo<X>, dst: T, finish: F, write: W, after: TxnIo<X>, out: T| #[trigger]
        before.ends_writing(dst, finish, write, after, out) && (before.state.writing is Init
            || before.state.writing is Head) ==> exists|
        encoded: EncodedHead<X::Outgoing, X::Encode>,
        ended: Option<Ending>,
    |
        {
            &&& #[trigger] call_ensures(X::encode, (&before.heads.outgoing,), encoded)
            &&& #[trigger] call_ensures(
                finish,
                (
                    Encoder {
                        prefix: Some(WriteBuf { bytes: encoded.bytes, pos: 0 }),
                        ..encoded.encoder
                    },
                ),
                ended,
            )
            &&& after.io == before.io
            &&& after.heads.incoming == before.heads.incoming
            &&& after.state.reading == before.state.reading
            &&& after.heads.outgoing == encoded.head
            &&& after.state.keep_alive == (before.state.keep_alive && before.heads.outgoing.lets_live())
            &&& match ended {
                None => out == dst && after.state.writing is Closed,
                Some(ending) => exists|left: Ending, res: Poll<(), IoError>|
                    {
                        &&& #[trigger] flushes(write, ending, dst, left, out, res)
                        &&& match res {
                            Ok(Async::Ready(_)) => if after.state.keep_alive {
                                after.state.writing is KeepAlive
                            } else {
                                after.state.writing is Closed
                            },
                            Ok(Async::NotReady) => after.state.writing == Writing::<
                                X::Encode,
                            >::Ending(left),
                            Err(_) => after.state.writing is Closed,
                        }
                    },
            }
        },
{
    assert forall|before: TxnIo<X>, dst: T, finish: F, write: W, after: TxnIo<X>, out: T| #[trigger]
        before.ends_writing(dst, finish, write, after, out) && (before.state.writing is Init
            || before.state.writing is Head) implies exists|
        encoded: EncodedHead<X::Outgoing, X::Encode>,
        ended: Option<Ending>,
    |
        {
            &&& #[trigger] call_ensures(X::encode, (&before.heads.outgoing,), encoded)
            &&& #[trigger] call_ensures(
                finish,
                (
                    Encoder {
                        prefix: Some(WriteBuf { bytes: encoded.bytes, pos: 0 }),
                        ..encoded.encoder
                    },
                ),
                ended,
            )
            &&& after.io == before.io
            &&& after.heads.incoming == before.heads.incoming
            &&& after.state.reading == before.state.reading
            &&& after.heads.outgoing == encoded.head
            &&& after.state.keep_alive == (before.state.keep_alive && before.heads.outgoing.lets_live())
            &&& match ended {
                None => out == dst && after.state.writing is Closed,
                Some(ending) => exists|left: Ending, res: Poll<(), IoError>|
                    {
                        &&& #[trigger] flushes(write, ending, dst, left, out, res)
                        &&& match res {
                            Ok(Async::Ready(_)) => if after.state.keep_alive {
                                after.state.writing is KeepAlive
                            } else {
                                after.state.writing is Closed
                            },
                            Ok(Async::NotReady) => after.state.writing == Writing::<
                                X::Encode,
                            >::Ending(left),
                            Err(_) => after.state.writing is Closed,
                        }
                    },
            }
        } by {
        let told = ending_told(before, dst, finish, write, after, out);
        let encoded = choose|encoded: EncodedHead<X::Outgoing, X::Encode>|
            {
                &&& #[trigger] call_ensures(X::encode, (&before.heads.outgoing,), encoded)
                &&& told.0 == TxnIo {
                    state: before.state.after_head(
                        before.heads.outgoing.lets_live(),
                        encoded.encoder.prefixed(WriteBuf { bytes: encoded.bytes, pos: 0 }),
                    ),
                    heads: Heads { outgoing: encoded.head, ..before.heads },
                    ..before
                }
            };
        assert(call_ensures(
            finish,
            (
                Encoder {
                    prefix: Some(WriteBuf { bytes: encoded.bytes, pos: 0 }),
                    ..encoded.encoder
                },
            ),
            told.1,
        ));
    }
}

/// What ending a response comes to that is incomplete.
proof fn told_of_the_body<
    X: Http1Transaction,
    T,
    F: FnOnce(Encoder<X::Encode>) -> Option<Ending>,
    W: Fn(T, &[u8]) -> (T, Result<usize, IoError>),
>()
    ensures
        forall|before: TxnIo<X>, dst: T, finish: F, write: W, after: TxnIo<X>, out: T| #[trigger]
        before.ends_writing(dst, finish, write, after, out) && (
        before.state.writing matches Writing::Body(encoder) && (!encoder.eof
            || encoder.prefix is Some))
        ==> exists|ended: Option<Ending>|
        {
            &&& #[trigger] call_ensures(finish, (before.state.writing->Body_0,), ended)
            &&& after.io == before.io
            &&& after.heads == before.heads
            &&& after.state.reading == before.state.reading
            &&& after.state.keep_alive == before.state.keep_alive
            &&& match ended {
                None => out == dst && after.state.writing is Closed,
                Some(ending) => exists|left: Ending, res: Poll<(), IoError>|
                    {
                        &&& #[trigger] flushes(write, ending, dst, left, out, res)
                        &&& match res {
                            Ok(Async::Ready(_)) => if after.state.keep_alive {
                                after.state.writing is KeepAlive
                            } else {
                                after.state.writing is Closed
                            },
                            Ok(Async::NotReady) => after.state.writing == Writing::<
                                X::Encode,
                            >::Ending(left),
                            Err(_) => after.state.writing is Closed,
                        }
                    },
            }
        },
{
    assert forall|before: TxnIo<X>, dst: T, finish: F, write: W, after: TxnIo<X>, out: T| #[trigger]
        before.ends_writing(dst, finish, write, after, out) && (
        before.state.writing matches Writing::Body(encoder) && (!encoder.eof
            || encoder.prefix is Some))
        implies exists|ended: Option<Ending>|
        {
            &&& #[trigger] call_ensures(finish, (before.state.writing->Body_0,), ended)
            &&& after.io == before.io
            &&& after.heads == before.heads
            &&& after.state.reading == before.state.reading
            &&& after.state.keep_alive == before.state.keep_alive
            &&& match ended {
                None => out == dst && after.state.writing is Closed,
                Some(ending) => exists|left: Ending, res: Poll<(), IoError>|
                    {
                        &&& #[trigger] flushes(write, ending, dst, left, out, res)
                        &&& match res {
                            Ok(Async::Ready(_)) => if after.state.keep_alive {
                                after.state.writing is KeepAlive
                            } else {
                                after.state.writing is Closed
                            },
                            Ok(Async::NotReady) => after.state.writing == Writing::<
                                X::Encode,
                            >::Ending(left),
                            Err(_) => after.state.writing is Closed,
                        }
                    },
            }
        } by {
        let told = ending_told(before, dst, finish, write, after, out);
        assert(call_ensures(finish, (before.state.writing->Body_0,), told.1));
    }
}

/// Ending a response of which nothing was written yet sends its head, whatever became of the
/// request: the head that was set is encoded, its bytes stand in front of the encoder that is asked
/// for what completes the message, and that is written out.
pub proof fn end_writing_sends_the_head<
    X: Http1Transaction,
    T,
    F: FnOnce(Encoder<X::Encode>) -> Option<Ending>,
    W: Fn(T, &[u8]) -> (T, Result<usize, IoError>),
>()
    ensures
        forall|txn: &mut TxnIo<X>, dst: T, finish: F, write: W, out: T| #[trigger]
            call_ensures(TxnIo::<X>::end_writing::<T, F, W>, (txn, dst, finish, write), out) && ((
            *txn).state.writing is Init || (*txn).state.writing is Head) ==> exists|
                encoded: EncodedHead<X::Outgoing, X::Encode>,
                ended: Option<Ending>,
            |
                {
                    &&& #[trigger] call_ensures(X::encode, (&(*txn).heads.outgoing,), encoded)
                    &&& #[trigger] call_ensures(
                        finish,
                        (
                            Encoder {
                                prefix: Some(WriteBuf { bytes: encoded.bytes, pos: 0 }),
                                ..encoded.encoder
                            },
                        ),
                        ended,
                    )
                    &&& (*final(txn)).io == (*txn).io
                    &&& (*final(txn)).heads.incoming == (*txn).heads.incoming
                    &&& (*final(txn)).state.reading == (*txn).state.reading
                    &&& (*final(txn)).heads.outgoing == encoded.head
                    &&& (*final(txn)).state.keep_alive == ((*txn).state.keep_alive && (
                        match (*txn).heads.outgoing.version {
                            HttpVersion::Http10 => (*txn).heads.outgoing.headers.connection matches Some(
                                c,
                            ) && c.0@.contains(ConnectionOption::KeepAlive),
                            HttpVersion::Http11 => !((*txn).heads.outgoing.headers.connection matches Some(
                                c,
                            ) && c.0@.contains(ConnectionOption::Close)),
                            _ => true,
                        }))
                    &&& match ended {
                        None => out == dst && (*final(txn)).state.writing is Closed,
                        Some(ending) => exists|left: Ending, res: Poll<(), IoError>|
                            {
                                &&& #[trigger] flushes(write, ending, dst, left, out, res)
                                &&& match res {
                                    Ok(Async::Ready(_)) => if (*final(txn)).state.keep_alive {
                                        (*final(txn)).state.writing is KeepAlive
                                    } else {
                                        (*final(txn)).state.writing is Closed
                                    },
                                    Ok(Async::NotReady) => (*final(txn)).state.writing == Writing::<
                                        X::Encode,
                                    >::Ending(left),
                                    Err(_) => (*final(txn)).state.writing is Closed,
                                }
                            },
                    }
                },
{
    told_of_the_head::<X, T, F, W>();
}

/// Ending a response that is under way and incomplete asks its encoder for what completes it, and
/// writes that out.
pub proof fn end_writing_completes_the_body<
    X: Http1Transaction,
    T,
    F: FnOnce(Encoder<X::Encode>) -> Option<Ending>,
    W: Fn(T, &[u8]) -> (T, Result<usize, IoError>),
>()
    ensures
        forall|txn: &mut TxnIo<X>, dst: T, finish: F, write: W, out: T| #[trigger]
            call_ensures(TxnIo::<X>::end_writing::<T, F, W>, (txn, dst, finish, write), out) && ((
            *txn).state.writing matches Writing::Body(encoder) && (!encoder.eof
                || encoder.prefix is Some))
            ==> exists|ended: Option<Ending>|
                {
                    &&& #[trigger] call_ensures(finish, ((*txn).state.writing->Body_0,), ended)
                    &&& (*final(txn)).io == (*txn).io
                    &&& (*final(txn)).heads.incoming == (*txn).heads.incoming
                    &&& (*final(txn)).state.reading == (*txn).state.reading
                    &&& (*final(txn)).heads.outgoing == (*txn).heads.outgoing
                    &&& (*final(txn)).state.keep_alive == (*txn).state.keep_alive
                    &&& match ended {
                        None => out == dst && (*final(txn)).state.writing is Closed,
                        Some(ending) => exists|left: Ending, res: Poll<(), IoError>|
                            {
                                &&& #[trigger] flushes(write, ending, dst, left, out, res)
                                &&& match res {
                                    Ok(Async::Ready(_)) => if (*final(txn)).state.keep_alive {
                                        (*final(txn)).state.writing is KeepAlive
                                    } else {
                                        (*final(txn)).state.writing is Closed
                                    },
                                    Ok(Async::NotReady) => (*final(txn)).state.writing == Writing::<
                                        X::Encode,
                                    >::Ending(left),
                                    Err(_) => (*final(txn)).state.writing is Closed,
                                }
                            },
                    }
                },
{
    told_of_the_body::<X, T, F, W>();
}

/// Ending a response that is complete, or was ended before, sends nothing.
pub proof fn end_writing_adds_nothing<
    X: Http1Transaction,
    T,
    F: FnOnce(Encoder<X::Encode>) -> Option<Ending>,
    W: Fn(T, &[u8]) -> (T, Result<usize, IoError>),
>()
    ensures
        forall|txn: &mut TxnIo<X>, dst: T, finish: F, write: W, out: T| #[trigger]
            call_ensures(TxnIo::<X>::end_writing::<T, F, W>, (txn, dst, finish, write), out) && !((
            *txn).state.writing is Init || (*txn).state.writing is Head) && !((
            *txn).state.writing matches Writing::Body(encoder) && (!encoder.eof
                || encoder.prefix is Some))
            ==> {
                    &&& out == dst
                    &&& (*final(txn)).io == (*txn).io
                    &&& (*final(txn)).heads.incoming == (*txn).heads.incoming
                    &&& (*final(txn)).state.reading == (*txn).state.reading
                    &&& (*final(txn)).heads.outgoing == (*txn).heads.outgoing
                    &&& (*final(txn)).state.keep_alive == (*txn).state.keep_alive
                    &&& match (*txn).state.writing {
                        Writing::Body(_) => if (*txn).state.keep_alive {
                            (*final(txn)).state.writing is KeepAlive
                        } else {
                            (*final(txn)).state.writing is Closed
                        },
                        other => (*final(txn)).state.writing == other,
                    }
                },
{
}

/// Ending a transaction of whose response nothing was written yet sends the head, whatever became
/// of the request: the head that was set is encoded, its bytes stand in front of the encoder that is
/// asked for what completes the message, and that is written out.
pub proof fn end_sends_the_head<
    X: Http1Transaction,
    T,
    F: FnOnce(Encoder<X::Encode>) -> Option<Ending>,
    W: Fn(T, &[u8]) -> (T, Result<usize, IoError>),
>()
    ensures
        forall|txn: &mut TxnIo<X>, dst: T, finish: F, write: W, out: T| #[trigger]
            call_ensures(TxnIo::<X>::end::<T, F, W>, (txn, dst, finish, write), out) && ((
            *txn).state.writing is Init || (*txn).state.writing is Head) ==> exists|
                encoded: EncodedHead<X::Outgoing, X::Encode>,
                ended: Option<Ending>,
            |
                {
                    &&& #[trigger] call_ensures(X::encode, (&(*txn).heads.outgoing,), encoded)
                    &&& #[trigger] call_ensures(
                        finish,
                        (
                            Encoder {
                                prefix: Some(WriteBuf { bytes: encoded.bytes, pos: 0 }),
                                ..encoded.encoder
                            },
                        ),
                        ended,
                    )
                    &&& (*final(txn)).io == (*txn).io
                    &&& (*final(txn)).heads.incoming == (*txn).heads.incoming
                    &&& match (*txn).state.reading {
                        Reading::KeepAlive => (*final(txn)).state.reading is KeepAlive,
                        Reading::Body(decoder) => if decoder.eof && (*txn).state.keep_alive {
                            (*final(txn)).state.reading is KeepAlive
                        } else {
                            (*final(txn)).state.reading is Closed
                        },
                        _ => (*final(txn)).state.reading is Closed,
                    }
                    &&& (*final(txn)).heads.outgoing == encoded.head
                    &&& (*final(txn)).state.keep_alive == ((*txn).state.keep_alive && (
                        match (*txn).heads.outgoing.version {
                            HttpVersion::Http10 => (*txn).heads.outgoing.headers.connection matches Some(
                                c,
                            ) && c.0@.contains(ConnectionOption::KeepAlive),
                            HttpVersion::Http11 => !((*txn).heads.outgoing.headers.connection matches Some(
                                c,
                            ) && c.0@.contains(ConnectionOption::Close)),
                            _ => true,
                        }))
                    &&& match ended {
                        None => out == dst && (*final(txn)).state.writing is Closed,
                        Some(ending) => exists|left: Ending, res: Poll<(), IoError>|
                            {
                                &&& #[trigger] flushes(write, ending, dst, left, out, res)
                                &&& match res {
                                    Ok(Async::Ready(_)) => if (*final(txn)).state.keep_alive {
                                        (*final(txn)).state.writing is KeepAlive
                                    } else {
                                        (*final(txn)).state.writing is Closed
                                    },
                                    Ok(Async::NotReady) => (*final(txn)).state.writing == Writing::<
                                        X::Encode,
                                    >::Ending(left),
                                    Err(_) => (*final(txn)).state.writing is Closed,
                                }
                            },
                    }
                },
{
    told_of_the_head::<X, T, F, W>();
}

/// Ending a transaction whose response is under way and incomplete asks its encoder for what
/// completes it, and writes that out.
pub proof fn end_completes_the_body<
    X: Http1Transaction,
    T,
    F: FnOnce(Encoder<X::Encode>) -> Option<Ending>,
    W: Fn(T, &[u8]) -> (T, Result<usize, IoError>),
>()
    ensures
        forall|txn: &mut TxnIo<X>, dst: T, finish: F, write: W, out: T| #[trigger]
            call_ensures(TxnIo::<X>::end::<T, F, W>, (txn, dst, finish, write), out) && ((
            *txn).state.writing matches Writing::Body(encoder) && (!encoder.eof
                || encoder.prefix is Some))
            ==> exists|ended: Option<Ending>|
                {
                    &&& #[trigger] call_ensures(finish, ((*txn).state.writing->Body_0,), ended)
                    &&& (*final(txn)).io == (*txn).io
                    &&& (*final(txn)).heads.incoming == (*txn).heads.incoming
                    &&& match (*txn).state.reading {
                        Reading::KeepAlive => (*final(txn)).state.reading is KeepAlive,
                        Reading::Body(decoder) => if decoder.eof && (*txn).state.keep_alive {
                            (*final(txn)).state.reading is KeepAlive
                        } else {
                            (*final(txn)).state.reading is Closed
                        },
                        _ => (*final(txn)).state.reading is Closed,
                    }
                    &&& (*final(txn)).heads.outgoing == (*txn).heads.outgoing
                    &&& (*final(txn)).state.keep_alive == (*txn).state.keep_alive
                    &&& match ended {
                        None => out == dst && (*final(txn)).state.writing is Closed,
                        Some(ending) => exists|left: Ending, res: Poll<(), IoError>|
                            {
                                &&& #[trigger] flushes(write, ending, dst, left, out, res)
                                &&& match res {
                                    Ok(Async::Ready(_)) => if (*final(txn)).state.keep_alive {
                                        (*final(txn)).state.writing is KeepAlive
                                    } else {
                                        (*final(txn)).state.writing is Closed
                                    },
                                    Ok(Async::NotReady) => (*final(txn)).state.writing == Writing::<
                                        X::Encode,
                                    >::Ending(left),
                                    Err(_) => (*final(txn)).state.writing is Closed,
                                }
                            },
                    }
                },
{
    told_of_the_body::<X, T, F, W>();
}

/// Ending a transaction whose response is complete, or was ended before, sends nothing.
pub proof fn end_adds_nothing<
    X: Http1Transaction,
    T,
    F: FnOnce(Encoder<X::Encode>) -> Option<Ending>,
    W: Fn(T, &[u8]) -> (T, Result<usize, IoError>),
>()
    ensures
        forall|txn: &mut TxnIo<X>, dst: T, finish: F, write: W, out: T| #[trigger]
            call_ensures(TxnIo::<X>::end::<T, F, W>, (txn, dst, finish, write), out) && !((
            *txn).state.writing is Init || (*txn).state.writing is Head) && !((
            *txn).state.writing matches Writing::Body(encoder) && (!encoder.eof
                || encoder.prefix is Some))
            ==> {
                    &&& out == dst
                    &&& (*final(txn)).io == (*txn).io
                    &&& (*final(txn)).heads.incoming == (*txn).heads.incoming
                    &&& match (*txn).state.reading {
                        Reading::KeepAlive => (*final(txn)).state.reading is KeepAlive,
                        Reading::Body(decoder) => if decoder.eof && (*txn).state.keep_alive {
                            (*final(txn)).state.reading is KeepAlive
                        } else {
                            (*final(txn)).state.reading is Closed
                        },
                        _ => (*final(txn)).state.reading is Closed,
                    }
                    &&& (*final(txn)).heads.outgoing == (*txn).heads.outgoing
                    &&& (*final(txn)).state.keep_alive == (*txn).state.keep_alive
                    &&& match (*txn).state.writing {
                        Writing::Body(_) => if (*txn).state.keep_alive {
                            (*final(txn)).state.writing is KeepAlive
                        } else {
                            (*final(txn)).state.writing is Closed
                        },
                        other => (*final(txn)).state.writing == other,
                    }
                },
{
}

/// A write that takes as much as it says, no more than it is offered, and some of it, and never
/// fails, and what it makes of what a destination has received.
pub open spec fn takes_all<T, W: Fn(T, &[u8]) -> (T, Result<usize, IoError>)>(
    write: W,
    received: spec_fn(T) -> Seq<u8>,
) -> bool {
    forall|t: T, x: &[u8], u: T, result: Result<usize, IoError>| #[trigger]
        call_ensures(write, (t, x), (u, result)) ==> (result matches Ok(n) && n <= x@.len() && (
        x@.len() > 0 ==> n > 0) && received(u) == received(t) + x@.take(n as int))
}

/// A destination that takes all it is offered receives all of an ending, once.
proof fn whole_ending_is_received<T, W: Fn(T, &[u8]) -> (T, Result<usize, IoError>)>(
    write: W,
    received: spec_fn(T) -> Seq<u8>,
)
    requires
        forall|t: T, x: &[u8]| #[trigger] call_requires(write, (t, x)),
        takes_all(write, received),
    ensures
        forall|ending: Ending, dst: T, left: Ending, out: T, res: Poll<(), IoError>|
            ending.pos <= ending.bytes@.len() && #[trigger] flushes(
                write,
                ending,
                dst,
                left,
                out,
                res,
            ) ==> received(out) == received(dst) + ending.bytes@.skip(ending.pos as int) && res
                == Ok::<Async<()>, IoError>(Async::Ready(())),
{
    assert(takes_bytes(write)) by {
        assert forall|t: T, x: &[u8], u: T, n: usize| #[trigger]
            call_ensures(write, (t, x), (u, Ok::<usize, IoError>(n))) implies n <= x@.len() && (
        x@.len() > 0 ==> n > 0) by {}
    }
    assert(appends(write, received));
    assert forall|ending: Ending, dst: T, left: Ending, out: T, res: Poll<(), IoError>|
        ending.pos <= ending.bytes@.len() && #[trigger] flushes(
            write,
            ending,
            dst,
            left,
            out,
            res,
        ) implies received(out) == received(dst) + ending.bytes@.skip(ending.pos as int) && res
        == Ok::<Async<()>, IoError>(Async::Ready(())) by {
        ending_is_sent_once(write, received, ending, dst, left, out, res);
        ending_goes_out_whole(write, ending, dst, left, out, res);
        assert(ending.bytes@.subrange(ending.pos as int, left.pos as int) =~= ending.bytes@.skip(
            ending.pos as int,
        ));
    }
}

/// A client that takes all it is sent gets the head of every response that is ended, even if nothing
/// was written to it: it receives exactly the ending that was made for that head. It makes no
/// difference whether the connection is to be kept alive, or whether the request was read.
pub proof fn ended_response_is_received<
    X: Http1Transaction,
    T,
    F: FnOnce(Encoder<X::Encode>) -> Option<Ending>,
    W: Fn(T, &[u8]) -> (T, Result<usize, IoError>),
>(finish: F, write: W, received: spec_fn(T) -> Seq<u8>)
    requires
        forall|e: Encoder<X::Encode>, ending: Ending| #[trigger]
            call_ensures(finish, (e,), Some(ending)) ==> ending.pos <= ending.bytes@.len(),
        forall|e: Encoder<X::Encode>| !(#[trigger] call_ensures(finish, (e,), None::<Ending>)),
        forall|t: T, x: &[u8]| #[trigger] call_requires(write, (t, x)),
        takes_all(write, received),
    ensures
        forall|txn: &mut TxnIo<X>, dst: T, out: T| #[trigger]
            call_ensures(TxnIo::<X>::end::<T, F, W>, (txn, dst, finish, write), out) && ((
            *txn).state.writing is Init || (*txn).state.writing is Head) ==> exists|
                encoded: EncodedHead<X::Outgoing, X::Encode>,
                ending: Ending,
            |
                {
                    &&& #[trigger] call_ensures(X::encode, (&(*txn).heads.outgoing,), encoded)
                    &&& #[trigger] call_ensures(
                        finish,
                        (
                            Encoder {
                                prefix: Some(WriteBuf { bytes: encoded.bytes, pos: 0 }),
                                ..encoded.encoder
                            },
                        ),
                        Some(ending),
                    )
                    &&& received(out) == received(dst) + ending.bytes@.skip(ending.pos as int)
                },
{
    end_sends_the_head::<X, T, F, W>();
    whole_ending_is_received(write, received);
}

/// Ending a request leaves the connection alive only where all of it was read and the connection is
/// to be kept alive. The response and what was received are left alone.
pub proof fn end_reading_closes_what_was_not_read<X: Http1Transaction>()
    ensures
        forall|txn: &mut TxnIo<X>, out: ()| #[trigger]
            call_ensures(TxnIo::<X>::end_reading, (txn,), out) ==> {
                &&& (*final(txn)).io == (*txn).io
                &&& (*final(txn)).heads == (*txn).heads
                &&& (*final(txn)).state.keep_alive == (*txn).state.keep_alive
                &&& (*final(txn)).state.writing == (*txn).state.writing
                &&& match (*txn).state.reading {
                    Reading::KeepAlive => (*final(txn)).state.reading is KeepAlive,
                    Reading::Body(decoder) => if decoder.eof && (*txn).state.keep_alive {
                        (*final(txn)).state.reading is KeepAlive
                    } else {
                        (*final(txn)).state.reading is Closed
                    },
                    _ => (*final(txn)).state.reading is Closed,
                }
            },
{
}

/// Giving a transaction up closes both of its messages, and touches nothing else.
pub proof fn abort_closes_both_messages<X: Http1Transaction>()
    ensures
        forall|txn: &mut TxnIo<X>, out: ()| #[trigger]
            call_ensures(TxnIo::<X>::abort, (txn,), out) ==> {
                &&& (*final(txn)).io == (*txn).io
                &&& (*final(txn)).heads == (*txn).heads
                &&& (*final(txn)).state.keep_alive == (*txn).state.keep_alive
                &&& (*final(txn)).state.reading is Closed
                &&& (*final(txn)).state.writing is Closed
            },
        forall|txn: &mut Transaction<X>, out: ()| #[trigger]
            call_ensures(Transaction::<X>::abort, (txn,), out) ==> {
                &&& (*final(txn)).inner->H1_0.io == (*txn).inner->H1_0.io
                &&& (*final(txn)).inner->H1_0.heads == (*txn).inner->H1_0.heads
                &&& (*final(txn)).inner->H1_0.state.keep_alive
                    == (*txn).inner->H1_0.state.keep_alive
                &&& (*final(txn)).inner->H1_0.state.reading is Closed
                &&& (*final(txn)).inner->H1_0.state.writing is Closed
            },
{
}

/// The request's head, or the error in its place, is handed out as it came in, and then gone.
pub proof fn incoming_is_handed_out_once<X: Http1Transaction>()
    ensures
        forall|txn: &mut TxnIo<X>, incoming: Result<MessageHead<X::Incoming>, Error>| #[trigger]
            call_ensures(TxnIo::<X>::incoming, (txn,), incoming) ==> {
                &&& (*txn).heads.incoming == Some(incoming)
                &&& (*final(txn)).heads.incoming is None
                &&& (*final(txn)).heads.outgoing == (*txn).heads.outgoing
                &&& (*final(txn)).io == (*txn).io
                &&& (*final(txn)).state == (*txn).state
            },
        forall|txn: &mut Transaction<X>, incoming: Result<MessageHead<X::Incoming>, Error>|
            #[trigger]
            call_ensures(Transaction::<X>::incoming, (txn,), incoming) ==> {
                &&& (*txn).inner->H1_0.heads.incoming == Some(incoming)
                &&& (*final(txn)).inner->H1_0.heads.incoming is None
                &&& (*final(txn)).inner->H1_0.heads.outgoing == (*txn).inner->H1_0.heads.outgoing
                &&& (*final(txn)).inner->H1_0.io == (*txn).inner->H1_0.io
                &&& (*final(txn)).inner->H1_0.state == (*txn).inner->H1_0.state
            },
        forall|txn: &Transaction<X>, has: bool| #[trigger]
            call_ensures(Transaction::<X>::has_incoming, (txn,), has) ==> has == (
            (*txn).inner->H1_0.heads.incoming is Some),
{
}

/// What is set in the head that is handed out is what the response's head is from there on.
pub proof fn outgoing_is_set_in_place<X: Http1Transaction>()
    ensures
        forall|txn: &mut TxnIo<X>, head: &mut MessageHead<X::Outgoing>| #[trigger]
            call_ensures(TxnIo::<X>::outgoing, (txn,), head) ==> {
                &&& *head == (*txn).heads.outgoing
                &&& (*final(txn)).heads.outgoing == *final(head)
                &&& (*final(txn)).heads.incoming == (*txn).heads.incoming
                &&& (*final(txn)).io == (*txn).io
                &&& (*final(txn)).state == (*txn).state
            },
        forall|txn: &mut Transaction<X>, head: &mut MessageHead<X::Outgoing>| #[trigger]
            call_ensures(Transaction::<X>::outgoing, (txn,), head) ==> {
                &&& *head == (*txn).inner->H1_0.heads.outgoing
                &&& (*final(txn)).inner->H1_0.heads.outgoing == *final(head)
                &&& (*final(txn)).inner->H1_0.heads.incoming == (*txn).inner->H1_0.heads.incoming
                &&& (*final(txn)).inner->H1_0.io == (*txn).inner->H1_0.io
                &&& (*final(txn)).inner->H1_0.state == (*txn).inner->H1_0.state
            },
{
}

/// Writing a head encodes it and sets its bytes to go out in front of the body. If the client wants
/// to close, the server cannot stop it; if the client wants to stay alive, it depends on the server
/// to agree.
pub proof fn head_is_encoded_as_it_is<X: Http1Transaction>()
    ensures
        forall|
            state: &mut State<X::Decode, X::Encode>,
            head: &mut MessageHead<X::Outgoing>,
            out: (),
        | #[trigger]
            call_ensures(write_head::<X>, (state, head), out) ==> exists|
                encoded: EncodedHead<X::Outgoing, X::Encode>,
            |
                {
                    &&& #[trigger] call_ensures(X::encode, (&*head,), encoded)
                    &&& *final(head) == encoded.head
                    &&& (*final(state)).reading == (*state).reading
                    &&& (*final(state)).writing == Writing::<X::Encode>::Body(
                        Encoder {
                            prefix: Some(WriteBuf { bytes: encoded.bytes, pos: 0 }),
                            ..encoded.encoder
                        },
                    )
                    &&& (*final(state)).keep_alive == ((*state).keep_alive && (
                        match (*head).version {
                            HttpVersion::Http10 => (*head).headers.connection matches Some(c)
                                && c.0@.contains(ConnectionOption::KeepAlive),
                            HttpVersion::Http11 => !((*head).headers.connection matches Some(c)
                                && c.0@.contains(ConnectionOption::Close)),
                            _ => true,
                        }))
                },
{
}

/// A transaction starts with its request's head at hand and nothing of its response. The connection
/// may live on if the request lets it; the request is over at once if it has no body. An error in
/// the request's place is handed on, and closes the connection.
pub proof fn transaction_starts_with_its_request<H: TransactionHandler>(
    incoming: Incoming<H::Transaction>,
    handler: H,
    txn: Txn<H>,
)
    requires
        call_ensures(Txn::<H>::incoming, (incoming, handler), txn),
    ensures
        txn.handler == handler,
        txn.state.writing is Init,
        txn.heads.outgoing.version == HttpVersion::Http11,
        txn.heads.outgoing.headers.connection is None,
        txn.heads.outgoing.headers.raw@.len() == 0,
        call_ensures(
            <<H::Transaction as Http1Transaction>::Outgoing as Default>::default,
            (),
            txn.heads.outgoing.subject,
        ),
        match incoming {
            Ok((head, body)) => {
                &&& txn.heads.incoming matches Some(Ok(h)) && h == head
                &&& txn.state.keep_alive == (match head.version {
                        HttpVersion::Http10 => head.headers.connection matches Some(c)
                            && c.0@.contains(ConnectionOption::KeepAlive),
                        HttpVersion::Http11 => !(head.headers.connection matches Some(c)
                            && c.0@.contains(ConnectionOption::Close)),
                        _ => true,
                    })
                &&& if !body.eof {
                    txn.state.reading == Reading::<<H::Transaction as Http1Transaction>::Decode>::Body(
                        body,
                    )
                } else if txn.state.keep_alive {
                    txn.state.reading is KeepAlive
                } else {
                    txn.state.reading is Closed
                }
            },
            Err(e) => {
                &&& txn.heads.incoming matches Some(Err(f)) && f == e
                &&& !txn.state.keep_alive
                &&& txn.state.reading is Closed
            },
        },
{
}

/// A turn of a transaction is one call of its handler, on the transaction as it stands, and leaves
/// it as the handler left it. It is over when both messages are, and the connection may be used
/// again only where both were kept alive.
pub proof fn transaction_is_left_to_its_handler<H: TransactionHandler>(
    txn: Txn<H>,
    io: Io,
    transport: H::Transport,
    out: (Txn<H>, Io, H::Transport, Async<TxnResult>),
)
    requires
        call_ensures(Txn::<H>::tick, (txn, io, transport), out),
    ensures
        exists|h: &mut H, t: &mut Transaction<H::Transaction>|
            {
                &&& #[trigger] call_ensures(H::ready, (h, t, transport), out.2)
                &&& *h == txn.handler
                &&& *final(h) == out.0.handler
                &&& (*t).inner->H1_0.io == io
                &&& (*t).inner->H1_0.state == txn.state
                &&& (*t).inner->H1_0.heads == txn.heads
                &&& (*final(t)).inner->H1_0.io == out.1
                &&& (*final(t)).inner->H1_0.state == out.0.state
                &&& (*final(t)).inner->H1_0.heads == out.0.heads
            },
        match (out.0.state.reading, out.0.state.writing) {
            (Reading::KeepAlive, Writing::KeepAlive) => out.3 == Async::Ready(TxnResult::KeepAlive),
            (Reading::KeepAlive, Writing::Closed) => out.3 == Async::Ready(TxnResult::Close),
            (Reading::Closed, Writing::KeepAlive) => out.3 == Async::Ready(TxnResult::Close),
            (Reading::Closed, Writing::Closed) => out.3 == Async::Ready(TxnResult::Close),
            _ => out.3 is NotReady,
        },
{
}

/// A destination that remembers what it was offered and what it answered, each time.
pub open spec fn remembers<T, W: Fn(T, &[u8]) -> (T, Result<usize, IoError>)>(
    write: W,
    seen: spec_fn(T) -> Seq<(Seq<u8>, Result<usize, IoError>)>,
) -> bool {
    forall|t: T, x: &[u8], u: T, result: Result<usize, IoError>| #[trigger]
        call_ensures(write, (t, x), (u, result)) ==> seen(u) == seen(t).push((x@, result))
}

/// What a destination that remembers has seen after some of the writes of a write-out.
proof fn seen_so_far<T, W: Fn(T, &[u8]) -> (T, Result<usize, IoError>)>(
    write: W,
    seen: spec_fn(T) -> Seq<(Seq<u8>, Result<usize, IoError>)>,
    before: Ending,
    log: Seq<Result<usize, IoError>>,
    ports: Seq<T>,
    after: Ending,
    res: Poll<(), IoError>,
    n: int,
)
    requires
        remembers(write, seen),
        flush_log(write, before, log, ports, after, res),
        0 <= n <= log.len(),
    ensures
        seen(ports[n]).len() == seen(ports[0]).len() + n,
        seen(ports[n]).take(seen(ports[0]).len() as int) == seen(ports[0]),
        forall|i: int|
            0 <= i < n ==> #[trigger] seen(ports[n])[seen(ports[0]).len() + i] == (
                before.bytes@.skip(before.pos + taken(log.take(i))),
                log[i],
            ),
    decreases n,
{
    if n == 0 {
        assert(seen(ports[0]).take(seen(ports[0]).len() as int) =~= seen(ports[0]));
    } else {
        seen_so_far(write, seen, before, log, ports, after, res, n - 1);
        let bytes = before.bytes@.skip(before.pos + taken(log.take(n - 1)));
        assert(offered(write, ports[n - 1], bytes, ports[n - 1 + 1], log[n - 1]));
        assert(seen(ports[n]) == seen(ports[n - 1]).push((bytes, log[n - 1])));
        assert(seen(ports[n]).take(seen(ports[0]).len() as int) =~= seen(ports[n - 1]).take(
            seen(ports[0]).len() as int,
        ));
    }
}

/// Writing out an ending offers all that is left of it, again and again, as long as some is taken
/// and some is left: each time what was taken last is gone from the front. No write follows a failed
/// one. The last write tells the result: done where nothing is left, to be waited for where it would
/// have blocked, and any other failure as it is. What was not taken is what is left.
pub proof fn ending_is_offered_until_it_is_gone<T, W: Fn(T, &[u8]) -> (T, Result<usize, IoError>)>(
    write: W,
    seen: spec_fn(T) -> Seq<(Seq<u8>, Result<usize, IoError>)>,
)
    requires
        remembers(write, seen),
        forall|t: T, x: &[u8], u: T, n: usize| #[trigger]
            call_ensures(write, (t, x), (u, Ok::<usize, IoError>(n))) ==> n <= x@.len(),
    ensures
        forall|ending: &mut Ending, dst: T, out: (T, Poll<(), IoError>)| #[trigger]
            call_ensures(write_ending::<T, W>, (ending, dst, write), out) && (*ending).pos
                <= (*ending).bytes@.len() ==> {
                let known = seen(dst).len() as int;
                let offers = seen(out.0).skip(known);
                &&& (*final(ending)).bytes == (*ending).bytes
                &&& seen(out.0).len() > known
                &&& seen(out.0).take(known) == seen(dst)
                &&& offers.first().0 == (*ending).bytes@.skip((*ending).pos as int)
                &&& forall|i: int|
                    0 <= i < offers.len() - 1 ==> {
                        &&& (#[trigger] offers[i]).1 is Ok
                        &&& offers[i + 1].0 == offers[i].0.skip(offers[i].1->Ok_0 as int)
                        &&& offers[i + 1].0.len() > 0
                    }
                &&& match offers.last().1 {
                    Ok(n) => {
                        &&& n == offers.last().0.len()
                        &&& (*final(ending)).pos == (*ending).bytes@.len()
                        &&& out.1 == Ok::<Async<()>, IoError>(Async::Ready(()))
                    },
                    Err(e) => {
                        &&& (*ending).bytes@.skip((*final(ending)).pos as int) == offers.last().0
                        &&& (*final(ending)).pos <= (*ending).bytes@.len()
                        &&& e.kind == ErrorKind::WouldBlock ==> out.1 == Ok::<Async<()>, IoError>(
                            Async::NotReady,
                        )
                        &&& e.kind != ErrorKind::WouldBlock ==> out.1 == Err::<Async<()>, IoError>(e)
                    },
                }
            },
{
    assert forall|before: Ending, dst: T, after: Ending, out: T, res: Poll<(), IoError>|
        before.pos <= before.bytes@.len() && after.pos <= after.bytes@.len() && #[trigger] flushes(
            write,
            before,
            dst,
            after,
            out,
            res,
        ) implies {
        let known = seen(dst).len() as int;
        let offers = seen(out).skip(known);
        &&& after.bytes == before.bytes
        &&& seen(out).len() > known
        &&& seen(out).take(known) == seen(dst)
        &&& offers.first().0 == before.bytes@.skip(before.pos as int)
        &&& forall|i: int|
            0 <= i < offers.len() - 1 ==> {
                &&& (#[trigger] offers[i]).1 is Ok
                &&& offers[i + 1].0 == offers[i].0.skip(offers[i].1->Ok_0 as int)
                &&& offers[i + 1].0.len() > 0
            }
        &&& match offers.last().1 {
            Ok(n) => {
                &&& n == offers.last().0.len()
                &&& after.pos == before.bytes@.len()
                &&& res == Ok::<Async<()>, IoError>(Async::Ready(()))
            },
            Err(e) => {
                &&& before.bytes@.skip(after.pos as int) == offers.last().0
                &&& after.pos <= before.bytes@.len()
                &&& e.kind == ErrorKind::WouldBlock ==> res == Ok::<Async<()>, IoError>(
                    Async::NotReady,
                )
                &&& e.kind != ErrorKind::WouldBlock ==> res == Err::<Async<()>, IoError>(e)
            },
        }
    } by {
        let (log, ports) = choose|log: Seq<Result<usize, IoError>>, ports: Seq<T>|
            {
                &&& #[trigger] flush_log(write, before, log, ports, after, res)
                &&& ports.first() == dst
                &&& ports.last() == out
            };
        let known = seen(dst).len() as int;
        let offers = seen(out).skip(known);
        let last = log.len() - 1;
        seen_so_far(write, seen, before, log, ports, after, res, log.len() as int);
        assert(log.take(0) =~= Seq::empty());
        assert(log.take(last) =~= log.drop_last());
        assert forall|i: int| 0 <= i < log.len() implies #[trigger] offers[i] == (
            before.bytes@.skip(before.pos + taken(log.take(i))),
            log[i],
        ) by {
            assert(offers[i] == seen(out)[known + i]);
        }
        assert(offers[0].0 == before.bytes@.skip(before.pos as int));
        assert forall|i: int| 0 <= i < offers.len() - 1 implies {
            &&& (#[trigger] offers[i]).1 is Ok
            &&& offers[i + 1].0 == offers[i].0.skip(offers[i].1->Ok_0 as int)
            &&& offers[i + 1].0.len() > 0
        } by {
            assert(log[i] is Ok);
            assert(log.take(i + 1).drop_last() =~= log.take(i));
            assert(log.take(i + 1).last() == log[i]);
            assert(offered(write, ports[i], offers[i].0, ports[i + 1], log[i]));
            assert(offers[i + 1].0 =~= offers[i].0.skip(offers[i].1->Ok_0 as int));
        }
        assert(offered(write, ports[last], offers[last].0, ports[last + 1], log[last]));
    }
}

/// A transaction writes, reads and ends as its HTTP/1 transaction does; where it tries to, what
/// would have blocked is no failure.
pub proof fn transaction_does_as_its_protocol<
    X: Http1Transaction,
    T,
    B,
    F: FnOnce(Encoder<X::Encode>, T, &[u8]) -> (Encoder<X::Encode>, T, Result<usize, IoError>),
    G: FnOnce(Decoder<X::Decode>, Io, T, B) -> (
        Decoder<X::Decode>,
        Io,
        T,
        B,
        Result<usize, IoError>,
    ),
    H: FnOnce(Encoder<X::Encode>) -> Option<Ending>,
    W: Fn(T, &[u8]) -> (T, Result<usize, IoError>),
>()
    ensures
        forall|
            txn: &mut Transaction<X>,
            dst: T,
            data: &[u8],
            encode: F,
            out: (T, Result<usize, IoError>),
        | #[trigger]
            call_ensures(Transaction::<X>::write::<T, F>, (txn, dst, data, encode), out)
                ==> (*txn).inner->H1_0.writes(
                dst,
                data,
                encode,
                (*final(txn)).inner->H1_0,
                out,
            ),
        forall|
            txn: &mut Transaction<X>,
            dst: T,
            data: &[u8],
            encode: F,
            out: (T, Result<Option<usize>, IoError>),
        | #[trigger]
            call_ensures(Transaction::<X>::try_write::<T, F>, (txn, dst, data, encode), out)
                ==> exists|outcome: Result<usize, IoError>|
                {
                    &&& #[trigger] (*txn).inner->H1_0.writes(
                        dst,
                        data,
                        encode,
                        (*final(txn)).inner->H1_0,
                        (out.0, outcome),
                    )
                    &&& match outcome {
                        Ok(n) => out.1 == Ok::<Option<usize>, IoError>(Some(n)),
                        Err(e) => if e.kind == ErrorKind::WouldBlock {
                            out.1 == Ok::<Option<usize>, IoError>(None)
                        } else {
                            out.1 == Err::<Option<usize>, IoError>(e)
                        },
                    }
                },
        forall|
            txn: &mut Transaction<X>,
            src: T,
            buf: B,
            decode: G,
            out: (T, B, Result<usize, IoError>),
        | #[trigger]
            call_ensures(Transaction::<X>::read::<T, B, G>, (txn, src, buf, decode), out)
                ==> (*txn).inner->H1_0.reads(src, buf, decode, (*final(txn)).inner->H1_0, out),
        forall|
            txn: &mut Transaction<X>,
            src: T,
            buf: B,
            decode: G,
            out: (T, B, Result<Option<usize>, IoError>),
        | #[trigger]
            call_ensures(Transaction::<X>::try_read::<T, B, G>, (txn, src, buf, decode), out)
                ==> exists|outcome: Result<usize, IoError>|
                {
                    &&& #[trigger] (*txn).inner->H1_0.reads(
                        src,
                        buf,
                        decode,
                        (*final(txn)).inner->H1_0,
                        (out.0, out.1, outcome),
                    )
                    &&& match outcome {
                        Ok(n) => out.2 == Ok::<Option<usize>, IoError>(Some(n)),
                        Err(e) => if e.kind == ErrorKind::WouldBlock {
                            out.2 == Ok::<Option<usize>, IoError>(None)
                        } else {
                            out.2 == Err::<Option<usize>, IoError>(e)
                        },
                    }
                },
        forall|txn: &mut Transaction<X>, dst: T, finish: H, write: W, out: T| #[trigger]
            call_ensures(Transaction::<X>::end::<T, H, W>, (txn, dst, finish, write), out)
                ==> (*txn).inner->H1_0.ends(dst, finish, write, (*final(txn)).inner->H1_0, out),
{
}

/// A decoder is at its end when it says so, and an encoder when it says so and nothing is left to
/// send in front of the body. Setting what is sent in front, and closing, touch nothing else.
pub proof fn codecs_tell_where_they_stand<D, E>()
    ensures
        forall|decoder: &Decoder<D>, eof: bool| #[trigger]
            call_ensures(Decoder::<D>::is_eof, (decoder,), eof) ==> eof == decoder.eof,
        forall|encoder: &Encoder<E>, eof: bool| #[trigger]
            call_ensures(Encoder::<E>::is_eof, (encoder,), eof) ==> eof == (encoder.eof
                && encoder.prefix is None),
        forall|encoder: &Encoder<E>, closed: bool| #[trigger]
            call_ensures(Encoder::<E>::is_closed, (encoder,), closed) ==> closed == encoder.closed,
        forall|encoder: &mut Encoder<E>, prefix: WriteBuf<Vec<u8>>, out: ()| #[trigger]
            call_ensures(Encoder::<E>::prefix, (encoder, prefix), out) ==> *final(encoder) == (
            Encoder { prefix: Some(prefix), ..*encoder }),
        forall|encoder: &mut Encoder<E>, out: ()| #[trigger]
            call_ensures(Encoder::<E>::close, (encoder,), out) ==> *final(encoder) == (Encoder {
                closed: true,
                ..*encoder
            }),
{
}

/// Every transaction can be ended, given up and asked for its heads; it can be written to unless it
/// waits for its ending to go out, and read from once its request has come in.
pub proof fn operations_are_open_to_every_transaction<
    X: Http1Transaction,
    T,
    B,
    F: FnOnce(Encoder<X::Encode>, T, &[u8]) -> (Encoder<X::Encode>, T, Result<usize, IoError>),
    G: FnOnce(Decoder<X::Decode>, Io, T, B) -> (
        Decoder<X::Decode>,
        Io,
        T,
        B,
        Result<usize, IoError>,
    ),
    H: FnOnce(Encoder<X::Encode>) -> Option<Ending>,
    W: Fn(T, &[u8]) -> (T, Result<usize, IoError>),
>()
    ensures
        forall|txn: &mut TxnIo<X>, dst: T, data: &[u8], encode: F|
            !((*txn).state.writing is Ending) && (forall|encoder: Encoder<X::Encode>| #[trigger]
                call_requires(encode, (encoder, dst, data))) ==> #[trigger] call_requires(
                TxnIo::<X>::write::<T, F>,
                (txn, dst, data, encode),
            ),
        forall|txn: &mut TxnIo<X>, src: T, buf: B, decode: G|
            !((*txn).state.reading is Init) && !((*txn).state.reading is Parse) && (forall|
                decoder: Decoder<X::Decode>,
                io: Io,
            | #[trigger]
                call_requires(decode, (decoder, io, src, buf))) ==> #[trigger] call_requires(
                TxnIo::<X>::read::<T, B, G>,
                (txn, src, buf, decode),
            ),
        forall|txn: &mut TxnIo<X>, dst: T, finish: H, write: W|
            (forall|encoder: Encoder<X::Encode>| #[trigger] call_requires(finish, (encoder,))) && (
            forall|encoder: Encoder<X::Encode>, ending: Ending| #[trigger]
                call_ensures(finish, (encoder,), Some(ending)) ==> ending.pos
                    <= ending.bytes@.len()) && (forall|t: T, x: &[u8]| #[trigger]
                call_requires(write, (t, x))) && (forall|t: T, x: &[u8], u: T, n: usize| #[trigger]
                call_ensures(write, (t, x), (u, Ok::<usize, IoError>(n))) ==> n <= x@.len() && (
                x@.len() > 0 ==> n > 0)) ==> #[trigger] call_requires(
                TxnIo::<X>::end::<T, H, W>,
                (txn, dst, finish, write),
            ),
        forall|txn: &mut TxnIo<X>| #[trigger] call_requires(TxnIo::<X>::end_reading, (txn,)),
        forall|txn: &mut TxnIo<X>| #[trigger] call_requires(TxnIo::<X>::abort, (txn,)),
        forall|txn: &mut TxnIo<X>| #[trigger] call_requires(TxnIo::<X>::outgoing, (txn,)),
        forall|txn: &mut TxnIo<X>|
            (*txn).heads.incoming is Some ==> #[trigger] call_requires(
                TxnIo::<X>::incoming,
                (txn,),
            ),
{
}

/// A transaction that speaks HTTP/1 is the HTTP/1 transaction that it was made of.
pub proof fn transaction_is_what_it_was_made_of<X: Http1Transaction>(
    txn: TxnIo<X>,
    made: Transaction<X>,
)
    requires
        call_ensures(Transaction::<X>::h1, (txn,), made),
    ensures
        made.inner->H1_0 == txn,
{
}

} // verus!
