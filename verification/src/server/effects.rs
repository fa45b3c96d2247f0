//! What each operation on a server does, told by the calls it makes and the fields it leaves.
use crate::error::{Error, ErrorKind, IoError};
use crate::http::h1::{Decoder, Encoder, Ending};
use crate::http::{Conn, ConnectionHandler, Http1Transaction, Io, Key, MessageHead};
use crate::server::limits::{
    count_sockets, keep_idle, IdleAction, IdleEvent, SocketAction, SocketEvent,
};
use crate::server::txn::{Created, Handle, Handler, HandlerFactory, Transaction};
use crate::server::{seconds, Context, Listening, MergedItem, Server};
use std::time::Duration;
use vstd::prelude::*;

verus! {

/// A new server keeps connections alive, idle ones for ten seconds, and at most 4096 of them; what
/// is set of it is set, and nothing else.
pub proof fn server_is_what_it_was_set_to<A>()
    ensures
        forall|listeners: Vec<A>, server: Server<A>| #[trigger]
            call_ensures(Server::<A>::new, (listeners,), server) ==> {
                &&& server.listeners == listeners
                &&& server.keep_alive
                &&& server.idle_timeout == Some(seconds(10))
                &&& server.max_sockets == 4096
            },
        forall|server: Server<A>, val: bool, set: Server<A>| #[trigger]
            call_ensures(Server::<A>::keep_alive, (server, val), set) ==> {
                &&& set.keep_alive == val
                &&& set.listeners == server.listeners
                &&& set.idle_timeout == server.idle_timeout
                &&& set.max_sockets == server.max_sockets
            },
        forall|server: Server<A>, val: Option<Duration>, set: Server<A>| #[trigger]
            call_ensures(Server::<A>::idle_timeout, (server, val), set) ==> {
                &&& set.idle_timeout == val
                &&& set.listeners == server.listeners
                &&& set.keep_alive == server.keep_alive
                &&& set.max_sockets == server.max_sockets
            },
        forall|server: Server<A>, val: usize, set: Server<A>| #[trigger]
            call_ensures(Server::<A>::max_sockets, (server, val), set) ==> {
                &&& set.max_sockets == val
                &&& set.listeners == server.listeners
                &&& set.keep_alive == server.keep_alive
                &&& set.idle_timeout == server.idle_timeout
            },
{
}

/// A server that starts accepts from its first listener, and goes by what it was set to.
pub proof fn running_server_goes_by_its_settings<A, F>(
    server: Server<A>,
    factory: F,
    out: (A, Context<F>),
)
    requires
        server.listeners@.len() > 0,
        call_ensures(Server::<A>::handle::<F>, (server, factory), out),
    ensures
        out.0 == server.listeners@[0],
        out.1.factory == factory,
        out.1.keep_alive == server.keep_alive,
        out.1.idle_timeout == server.idle_timeout,
        out.1.max_sockets == server.max_sockets,
{
}

/// A connection that is accepted is new, has its own key and handler, and is kept alive if the
/// server keeps connections alive. The signal to shut down, alone or with a connection, ends the
/// server.
pub proof fn accepted_connection_is_served<F, K: Key, H: ConnectionHandler>(
    context: &Context<F>,
    merged: MergedItem<(K, H)>,
    res: Result<Conn<K, H>, IoError>,
)
    requires
        call_ensures(Context::<F>::accept::<K, H>, (context, merged), res),
    ensures
        match merged {
            MergedItem::First((key, handler)) => {
                &&& res is Ok
                &&& res->Ok_0.key == key
                &&& res->Ok_0.handler == handler
                &&& res->Ok_0.keep_alive_enabled == context.keep_alive
                &&& res->Ok_0.io.buf.bytes@.len() == 0
                &&& res->Ok_0.state is Init
            },
            _ => {
                &&& res is Err
                &&& res->Err_0.kind == ErrorKind::Other
                &&& res->Err_0.message@ == "shutdown"@
            },
        },
{
}

/// The addresses are those that the server listens on.
pub proof fn addresses_are_given_out<A>(listening: &Listening<A>, addrs: &[A])
    requires
        call_ensures(Listening::<A>::addrs, (listening,), addrs),
    ensures
        addrs@ == listening.addrs@,
{
}

/// Listening on one address more adds it to the end of the text, behind a comma and a space if there
/// were two or more; listening on none gives no text.
pub proof fn each_address_is_added_to_the_text(
    listening: &Listening<String>,
    more: &Listening<String>,
    addr: String,
    text: String,
    longer: String,
)
    requires
        call_ensures(Listening::<String>::to_string, (listening,), text),
        call_ensures(Listening::<String>::to_string, (more,), longer),
        more.addrs@ == listening.addrs@.push(addr),
    ensures
        longer@ == if listening.addrs@.len() < 2 {
            text@ + addr@
        } else {
            text@ + seq![',', ' '] + addr@
        },
        listening.addrs@.len() == 0 ==> text@.len() == 0,
{
    reveal_strlit(", ");
    assert(", "@ =~= seq![',', ' ']);
    assert(more.addrs@.drop_last() =~= listening.addrs@);
}

/// Another connection is accepted and served exactly while fewer are open than may be; each one that
/// is served counts, and each one that ended counts no more.
pub proof fn sockets_are_counted(
    max_sockets: usize,
    open: usize,
    event: SocketEvent,
    out: (usize, SocketAction),
)
    requires
        open <= max_sockets,
        call_ensures(count_sockets, (max_sockets, open, event), out),
    ensures
        out.0 <= max_sockets,
        event is Free ==> out.0 == open && (out.1 is Accept || out.1 is Wait) && (out.1 is Accept
            <==> open < max_sockets),
        event is Accepted ==> (out.1 is Serve || out.1 is Refuse) && (out.1 is Serve <==> open
            < max_sockets) && (out.1 is Serve <==> out.0 == open + 1) && (out.1 is Refuse <==> out.0
            == open),
        event is Ended ==> out.1 is Resume && (open > 0 ==> out.0 == open - 1) && (open == 0
            ==> out.0 == 0),
{
}

/// A connection's timer runs while the connection is idle, if it is not to be kept for ever: from
/// when it became idle, and from the last message that began. When it runs out, the connection is
/// closed.
pub proof fn idle_connections_are_timed(
    timeout: Option<Duration>,
    running: bool,
    event: IdleEvent,
    out: (bool, IdleAction),
)
    requires
        call_ensures(keep_idle, (timeout, running, event), out),
    ensures
        event is Fired ==> !out.0 && (running ==> out.1 is Close) && (!running ==> out.1 is Keep),
        event matches IdleEvent::Waits { idle, begun } ==> {
            &&& !(out.1 is Close)
            &&& out.0 == (idle && timeout is Some)
            &&& !out.0 ==> out.1 is Stop
            &&& out.0 && running && !begun ==> out.1 is Keep
            &&& out.0 && !(running && !begun) ==> (out.1 matches IdleAction::Start(d) && timeout
                == Some(d))
        },
{
}

/// A handler that has not been created yet is created when its request comes in: once, of that
/// request, which is gone then. The handler that was created is called at once, and on every later
/// turn; where none could be created, the transaction is given up, and the transport is left alone.
pub proof fn handler_is_created_of_its_request<F: HandlerFactory>()
    ensures
        forall|
            created: &mut Created<F>,
            txn: &mut Transaction<'_, <F::Output as Handler>::Transaction>,
            transport: <F::Output as Handler>::Transport,
            out: <F::Output as Handler>::Transport,
        | #[trigger]
            call_ensures(<Created<F> as Handler>::ready, (created, txn, transport), out) ==> {
                let met = (*(*txn).inner).inner->H1_0;
                let left = (*(*final(txn)).inner).inner->H1_0;
                &&& met.heads.incoming matches Some(incoming) ==> exists|
                    f: &mut F,
                    made: Result<F::Output, Error>,
                |
                    {
                        &&& #[trigger] call_ensures(F::create, (f, incoming), made)
                        &&& *f == (*created).factory
                        &&& *final(f) == (*final(created)).factory
                        &&& made is Err ==> {
                            &&& out == transport
                            &&& (*final(created)).handler is None
                            &&& left.state.reading is Closed && left.state.writing is Closed
                            &&& left.heads.incoming is None && left.heads.outgoing
                                == met.heads.outgoing
                            &&& left.io == met.io
                        }
                        &&& made matches Ok(handler) ==> exists|
                            h: &mut F::Output,
                            t: &mut Transaction<'_, <F::Output as Handler>::Transaction>,
                        |
                            {
                                let seen = (*(*t).inner).inner->H1_0;
                                &&& #[trigger] call_ensures(
                                    <F::Output as Handler>::ready,
                                    (h, t, transport),
                                    out,
                                )
                                &&& *h == handler && Some(*final(h)) == (*final(created)).handler
                                &&& seen.heads.incoming is None && seen.heads.outgoing
                                    == met.heads.outgoing
                                &&& seen.state == met.state && seen.io == met.io
                                &&& *final(t) == *final(txn)
                            }
                    }
                &&& met.heads.incoming is None ==> (*final(created)).factory == (*created).factory
                &&& met.heads.incoming is None && (*created).handler is None ==> {
                    &&& out == transport
                    &&& (*final(created)).handler is None
                    &&& left.state.reading is Closed && left.state.writing is Closed
                    &&& left.heads == met.heads && left.io == met.io
                }
                &&& met.heads.incoming is None ==> ((*created).handler matches Some(handler)
                    ==> exists|
                    h: &mut F::Output,
                    t: &mut Transaction<'_, <F::Output as Handler>::Transaction>,
                |
                    {
                        &&& #[trigger] call_ensures(
                            <F::Output as Handler>::ready,
                            (h, t, transport),
                            out,
                        )
                        &&& *h == handler && Some(*final(h)) == (*final(created)).handler
                        &&& (*(*t).inner).inner->H1_0 == met
                        &&& *final(t) == *final(txn)
                    })
            },
        forall|factory: F, created: Created<F>| #[trigger]
            call_ensures(Created::<F>::new, (factory,), created) ==> created.factory == factory
                && created.handler is None,
{
}

/// A handle holds the handler that it was made of.
pub proof fn handle_is_what_it_was_made_of<H: Handler>(handler: H, handle: Handle<H>)
    requires
        call_ensures(Handle::<H>::new, (handler,), handle),
    ensures
        handle.handler == handler,
{
}

/// A server's transaction writes, reads and ends as its HTTP/1 transaction does; where it tries to,
/// what would have blocked is no failure. What is set in the head of its response is set.
pub proof fn servers_transaction_does_as_its_protocol<
    X: Http1Transaction,
    T,
    B,
    F: FnOnce(Encoder<X::Encode>, T, &[u8]) -> (Encoder<X::Encode>, T, Result<usize, IoError>),
    G: FnOnce(Decoder<X::Decode>, Io, T, B) -> (
        Decoder<X::Decode>,
        Io,
        T,
        B,
        Result<usize, IoError>,
    ),
    H: FnOnce(Encoder<X::Encode>) -> Option<Ending>,
    W: Fn(T, &[u8]) -> (T, Result<usize, IoError>),
>()
    ensures
        forall|
            txn: &mut Transaction<'_, X>,
            dst: T,
            data: &[u8],
            encode: F,
            out: (T, Result<usize, IoError>),
        | #[trigger]
            call_ensures(Transaction::<'_, X>::write::<T, F>, (txn, dst, data, encode), out) ==> {
                &&& (*(*txn).inner).inner->H1_0.writes(
                    dst,
                    data,
                    encode,
                    (*(*final(txn)).inner).inner->H1_0,
                    out,
                )
                &&& *final((*final(txn)).inner) == *final((*txn).inner)
            },
        forall|
            txn: &mut Transaction<'_, X>,
            dst: T,
            data: &[u8],
            encode: F,
            out: (T, Result<Option<usize>, IoError>),
        | #[trigger]
            call_ensures(Transaction::<'_, X>::try_write::<T, F>, (txn, dst, data, encode), out)
                ==> {
                &&& *final((*final(txn)).inner) == *final((*txn).inner)
                &&& exists|outcome: Result<usize, IoError>|
                    {
                        &&& #[trigger] (*(*txn).inner).inner->H1_0.writes(
                            dst,
                            data,
                            encode,
                            (*(*final(txn)).inner).inner->H1_0,
                            (out.0, outcome),
                        )
                        &&& match outcome {
                            Ok(n) => out.1 == Ok::<Option<usize>, IoError>(Some(n)),
                            Err(e) => if e.kind == ErrorKind::WouldBlock {
                                out.1 == Ok::<Option<usize>, IoError>(None)
                            } else {
                                out.1 == Err::<Option<usize>, IoError>(e)
                            },
                        }
                    }
            },
        forall|
            txn: &mut Transaction<'_, X>,
            src: T,
            buf: B,
            decode: G,
            out: (T, B, Result<usize, IoError>),
        | #[trigger]
            call_ensures(Transaction::<'_, X>::read::<T, B, G>, (txn, src, buf, decode), out)
                ==> {
                &&& (*(*txn).inner).inner->H1_0.reads(
                    src,
                    buf,
                    decode,
                    (*(*final(txn)).inner).inner->H1_0,
                    out,
                )
                &&& *final((*final(txn)).inner) == *final((*txn).inner)
            },
        forall|
            txn: &mut Transaction<'_, X>,
            src: T,
            buf: B,
            decode: G,
            out: (T, B, Result<Option<usize>, IoError>),
        | #[trigger]
            call_ensures(Transaction::<'_, X>::try_read::<T, B, G>, (txn, src, buf, decode), out)
                ==> {
                &&& *final((*final(txn)).inner) == *final((*txn).inner)
                &&& exists|outcome: Result<usize, IoError>|
                    {
                        &&& #[trigger] (*(*txn).inner).inner->H1_0.reads(
                            src,
                            buf,
                            decode,
                            (*(*final(txn)).inner).inner->H1_0,
                            (out.0, out.1, outcome),
                        )
                        &&& match outcome {
                            Ok(n) => out.2 == Ok::<Option<usize>, IoError>(Some(n)),
                            Err(e) => if e.kind == ErrorKind::WouldBlock {
                                out.2 == Ok::<Option<usize>, IoError>(None)
                            } else {
                                out.2 == Err::<Option<usize>, IoError>(e)
                            },
                        }
                    }
            },
        forall|txn: &mut Transaction<'_, X>, dst: T, finish: H, write: W, out: T| #[trigger]
            call_ensures(Transaction::<'_, X>::end::<T, H, W>, (txn, dst, finish, write), out)
                ==> {
                &&& (*(*txn).inner).inner->H1_0.ends(
                    dst,
                    finish,
                    write,
                    (*(*final(txn)).inner).inner->H1_0,
                    out,
                )
                &&& *final((*final(txn)).inner) == *final((*txn).inner)
            },
        forall|txn: &mut Transaction<'_, X>, head: &mut MessageHead<X::Outgoing>| #[trigger]
            call_ensures(Transaction::<'_, X>::response, (txn,), head) ==> {
                let before = (*(*txn).inner).inner->H1_0;
                let after = (*(*final(txn)).inner).inner->H1_0;
                &&& *head == before.heads.outgoing
                &&& after.heads.outgoing == *final(head)
                &&& after.heads.incoming == before.heads.incoming
                &&& after.state == before.state && after.io == before.io
                &&& *final((*final(txn)).inner) == *final((*txn).inner)
            },
{
}

} // verus!
