//! What each operation on a connection does, told by the calls it makes and the fields it leaves.
use crate::error::{Async, Error, IoError};
use crate::header::ConnectionOption;
use crate::http::conn::{
    Conn, ConnectionHandler, Format, Key, Port, Seed, State, Subject, TransactionHandler,
};
use crate::http::h1::{Decoder, Reading, Txn, Writing};
use crate::http::{Buffer, Http1Transaction, MessageHead, Transaction};
use crate::version::HttpVersion;
use vstd::prelude::*;

verus! {

/// A request of HTTP/1.0 or HTTP/1.1 gets a handler, if the connection has one for it, and its
/// transaction starts on that request; only a request of another version closes the connection
/// without asking for one.
pub proof fn request_gets_a_handler<
    K: Key,
    H: ConnectionHandler,
    F: FnOnce(Buffer, Port<H>) -> (Buffer, Port<H>, Result<usize, IoError>),
>()
    ensures
        forall|
            conn: &mut Conn<K, H>,
            port: Port<H>,
            read_from: F,
            out: (Port<H>, Option<Async<()>>),
        | #[trigger]
            call_ensures(Conn::<K, H>::tick::<F>, (conn, port, read_from), out) && (
            *conn).state is Init ==> exists|parsed: Result<Option<MessageHead<Subject<H>>>, Error>|
                {
                    &&& #[trigger] (*conn).io.parses::<Port<H>, Format<H>, F>(
                        port,
                        read_from,
                        (*final(conn)).io,
                        out.0,
                        parsed,
                    )
                    &&& match parsed {
                        Ok(None) => {
                            &&& (*final(conn)).handler == (*conn).handler
                            &&& (*final(conn)).state is Init
                            &&& out.1 == Some(Async::<()>::NotReady)
                        },
                        Ok(Some(head)) => if head.version == HttpVersion::Http10 || head.version
                            == HttpVersion::Http11 {
                            exists|h: &mut H, made: Option<H::Txn>|
                                {
                                    &&& #[trigger] call_ensures(H::transaction, (h,), made)
                                    &&& *h == (*conn).handler
                                    &&& *final(h) == (*final(conn)).handler
                                    &&& made is None ==> (*final(conn)).state is Closed && out.1
                                        == Some(Async::Ready(()))
                                    &&& made matches Some(handler) ==> out.1 is None && (
                                    (*final(conn)).state matches State::Http1(txn) && txn.handler
                                        == handler && txn.state.writing is Init && exists|
                                        decoded: Result<
                                            Decoder<<Format<H> as Http1Transaction>::Decode>,
                                            Error,
                                        >,
                                    |
                                        {
                                            &&& #[trigger] call_ensures(
                                                <Format<H> as Http1Transaction>::decoder,
                                                (&head,),
                                                decoded,
                                            )
                                            &&& match decoded {
                                                Ok(decoder) => {
                                                    &&& txn.heads.incoming matches Some(Ok(g)) && g
                                                        == head
                                                    &&& txn.state.keep_alive == (match head.version {
                                                            HttpVersion::Http10 => head.headers.connection matches Some(c)
                                                                && c.0@.contains(ConnectionOption::KeepAlive),
                                                            HttpVersion::Http11 => !(head.headers.connection matches Some(c)
                                                                && c.0@.contains(ConnectionOption::Close)),
                                                            _ => true,
                                                        })
                                                    &&& if !decoder.eof {
                                                        txn.state.reading == Reading::<
                                                            <Format<H> as Http1Transaction>::Decode,
                                                        >::Body(decoder)
                                                    } else if txn.state.keep_alive {
                                                        txn.state.reading is KeepAlive
                                                    } else {
                                                        txn.state.reading is Closed
                                                    }
                                                },
                                                Err(e) => {
                                                    &&& txn.heads.incoming matches Some(Err(f)) && f
                                                        == e
                                                    &&& !txn.state.keep_alive
                                                    &&& txn.state.reading is Closed
                                                },
                                            }
                                        })
                                }
                        } else {
                            &&& (*final(conn)).handler == (*conn).handler
                            &&& (*final(conn)).state is Closed
                            &&& out.1 == Some(Async::Ready(()))
                        },
                        Err(e) => exists|h: &mut H, made: Option<H::Txn>|
                            {
                                &&& #[trigger] call_ensures(H::transaction, (h,), made)
                                &&& *h == (*conn).handler
                                &&& *final(h) == (*final(conn)).handler
                                &&& made is None ==> (*final(conn)).state is Closed && out.1 == Some(
                                    Async::Ready(()),
                                )
                                &&& made matches Some(handler) ==> out.1 is None && (
                                (*final(conn)).state matches State::Http1(txn) && txn.handler
                                    == handler && txn.state.writing is Init
                                    && txn.state.reading is Closed && !txn.state.keep_alive && (
                                txn.heads.incoming matches Some(Err(f)) && f == e))
                            },
                    }
                },
{
}

/// A message under way is its handler's: the handler is called once, on the transaction and the
/// transport as they stand, and they are left as it leaves them. While the transaction is not over
/// it stays; then the connection waits for another message if both messages were kept alive and it
/// is to be kept alive at all, and is closed if not.
pub proof fn message_is_left_to_its_handler<
    K: Key,
    H: ConnectionHandler,
    F: FnOnce(Buffer, Port<H>) -> (Buffer, Port<H>, Result<usize, IoError>),
>()
    ensures
        forall|
            conn: &mut Conn<K, H>,
            port: Port<H>,
            read_from: F,
            out: (Port<H>, Option<Async<()>>),
        | #[trigger]
            call_ensures(Conn::<K, H>::tick::<F>, (conn, port, read_from), out) && (
            *conn).state is Http1 ==> exists|
                h: &mut H::Txn,
                t: &mut Transaction<Format<H>>,
                after: Txn<H::Txn>,
            |
                {
                    let before = (*conn).state->Http1_0;
                    &&& #[trigger] call_ensures(
                        <H::Txn as TransactionHandler>::ready,
                        (h, t, port),
                        out.0,
                    )
                    &&& *h == before.handler
                    &&& (*t).inner->H1_0.io == (*conn).io
                    &&& (*t).inner->H1_0.state == before.state
                    &&& (*t).inner->H1_0.heads == before.heads
                    &&& *final(h) == after.handler
                    &&& *final(t) == #[trigger] after.at_work((*final(conn)).io)
                    &&& (*final(t)).inner->H1_0.io == (*final(conn)).io
                    &&& (*final(t)).inner->H1_0.state == after.state
                    &&& (*final(t)).inner->H1_0.heads == after.heads
                    &&& (*final(conn)).handler == (*conn).handler
                    &&& match (after.state.reading, after.state.writing) {
                        (Reading::KeepAlive, Writing::KeepAlive) => if (
                        *conn).keep_alive_enabled {
                            (*final(conn)).state is Init && out.1 is None
                        } else {
                            (*final(conn)).state is Closed && out.1 is None
                        },
                        (Reading::KeepAlive, Writing::Closed)
                        | (Reading::Closed, Writing::KeepAlive)
                        | (Reading::Closed, Writing::Closed) => (*final(conn)).state is Closed
                            && out.1 is None,
                        _ => (*final(conn)).state == State::Http1(after) && out.1 == Some(
                            Async::<()>::NotReady,
                        ),
                    }
                },
{
}

/// A closed connection is left alone, and so is its transport.
pub proof fn closed_connection_is_left_alone<
    K: Key,
    H: ConnectionHandler,
    F: FnOnce(Buffer, Port<H>) -> (Buffer, Port<H>, Result<usize, IoError>),
>()
    ensures
        forall|
            conn: &mut Conn<K, H>,
            port: Port<H>,
            read_from: F,
            out: (Port<H>, Option<Async<()>>),
        | #[trigger]
            call_ensures(Conn::<K, H>::tick::<F>, (conn, port, read_from), out) && (
            *conn).state is Closed ==> {
                &&& *final(conn) == *conn
                &&& out.0 == port
                &&& out.1 == Some(Async::Ready(()))
            },
{
}

/// A turn changes neither the key of a connection nor whether it is to be kept alive.
pub proof fn connection_stays_itself<
    K: Key,
    H: ConnectionHandler,
    F: FnOnce(Buffer, Port<H>) -> (Buffer, Port<H>, Result<usize, IoError>),
>()
    ensures
        forall|
            conn: &mut Conn<K, H>,
            port: Port<H>,
            read_from: F,
            out: (Port<H>, Option<Async<()>>),
        | #[trigger]
            call_ensures(Conn::<K, H>::tick::<F>, (conn, port, read_from), out) ==> (
            *final(conn)).key == (*conn).key && (*final(conn)).keep_alive_enabled
                == (*conn).keep_alive_enabled,
{
}

/// A new connection has received nothing and waits for its first message. What is set of it is set,
/// and an idle connection, and no other, can be closed from outside.
pub proof fn connection_is_what_it_was_made<K: Key, H: ConnectionHandler>()
    ensures
        forall|key: K, handler: H, conn: Conn<K, H>| #[trigger]
            call_ensures(Conn::<K, H>::new, (key, handler), conn) ==> {
                &&& conn.key == key
                &&& conn.handler == handler
                &&& conn.keep_alive_enabled
                &&& conn.io.buf.bytes@.len() == 0
                &&& conn.state is Init
            },
        forall|conn: Conn<K, H>, val: bool, set: Conn<K, H>| #[trigger]
            call_ensures(Conn::<K, H>::keep_alive, (conn, val), set) ==> {
                &&& set.keep_alive_enabled == val
                &&& set.key == conn.key
                &&& set.handler == conn.handler
                &&& set.io == conn.io
                &&& set.state == conn.state
            },
        forall|conn: &Conn<K, H>, key: &K| #[trigger]
            call_ensures(Conn::<K, H>::key, (conn,), key) ==> *key == conn.key,
        forall|seed: &Seed<'_, K>, key: &K| #[trigger]
            call_ensures(Seed::<'_, K>::key, (seed,), key) ==> *key == *seed.0,
        forall|conn: &Conn<K, H>, idle: bool| #[trigger]
            call_ensures(Conn::<K, H>::is_idle, (conn,), idle) ==> idle == (conn.state is Init),
        forall|conn: &mut Conn<K, H>, out: ()| #[trigger]
            call_ensures(Conn::<K, H>::close_idle, (conn,), out) ==> {
                &&& (*conn).state is Init ==> (*final(conn)).state is Closed
                &&& !((*conn).state is Init) ==> (*final(conn)).state == (*conn).state
                &&& (*final(conn)).key == (*conn).key
                &&& (*final(conn)).handler == (*conn).handler
                &&& (*final(conn)).io == (*conn).io
                &&& (*final(conn)).keep_alive_enabled == (*conn).keep_alive_enabled
            },
{
}

/// Polling a connection is taking turns, one after another, until one of them has an answer, or as
/// many as there may be were taken: each turn finds the connection and the transport where the one
/// before it left them.
pub proof fn poll_takes_turns<
    K: Key,
    H: ConnectionHandler,
    F: Fn(Buffer, Port<H>) -> (Buffer, Port<H>, Result<usize, IoError>) + Copy,
>()
    ensures
        forall|
            conn: &mut Conn<K, H>,
            port: Port<H>,
            read_from: F,
            turns: usize,
            out: (Port<H>, Option<Async<()>>),
        | #[trigger]
            call_ensures(Conn::<K, H>::poll::<F>, (conn, port, read_from, turns), out) ==> exists|
                trace: Seq<Conn<K, H>>,
                ports: Seq<Port<H>>,
                results: Seq<Option<Async<()>>>,
            |
                {
                    &&& #[trigger] Conn::<K, H>::is_run(trace, ports, results)
                    &&& results.len() <= turns
                    &&& trace.len() == results.len() + 1
                    &&& ports.len() == results.len() + 1
                    &&& trace[0] == *conn && ports[0] == port
                    &&& trace[results.len() as int] == *final(conn)
                    &&& ports[results.len() as int] == out.0
                    &&& forall|i: int|
                        #![trigger results[i]]
                        0 <= i < results.len() ==> exists|c: &mut Conn<K, H>|
                            {
                                &&& call_ensures(
                                    Conn::<K, H>::tick::<F>,
                                    (c, ports[i], read_from),
                                    (ports[i + 1], results[i]),
                                )
                                &&& *c == trace[i]
                                &&& *final(c) == trace[i + 1]
                            }
                    &&& forall|i: int| 0 <= i < results.len() - 1 ==> #[trigger] results[i] is None
                    &&& out.1 is None ==> results.len() == turns && forall|i: int|
                        0 <= i < turns ==> #[trigger] results[i] is None
                    &&& out.1 is Some ==> results.len() > 0 && results[results.len() - 1] == out.1
                },
{
}

/// Every connection can be taken a turn further and polled, wherever it can be read from, and asked
/// to close when it is idle.
pub proof fn every_connection_goes_on<
    K: Key,
    H: ConnectionHandler,
    F: Fn(Buffer, Port<H>) -> (Buffer, Port<H>, Result<usize, IoError>) + Copy,
>(read_from: F)
    requires
        forall|buf: Buffer, port: Port<H>| #[trigger] call_requires(read_from, (buf, port)),
    ensures
        forall|conn: &mut Conn<K, H>, port: Port<H>| #[trigger]
            call_requires(Conn::<K, H>::tick::<F>, (conn, port, read_from)),
        forall|conn: &mut Conn<K, H>, port: Port<H>, turns: usize| #[trigger]
            call_requires(Conn::<K, H>::poll::<F>, (conn, port, read_from, turns)),
        forall|conn: &mut Conn<K, H>| #[trigger] call_requires(Conn::<K, H>::close_idle, (conn,)),
{
}

} // verus!
