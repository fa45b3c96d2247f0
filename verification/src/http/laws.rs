//! What holds of every connection, whatever its handlers and its transport do.
use crate::error::{Async, Error, IoError};
use crate::http::conn::{Conn, ConnectionHandler, Format, Key, Port, State, Subject, TxnResult};
use crate::http::h1::laws::{kept_alive_unless_cut_short, refused_is_not_kept_alive, Step};
use crate::http::h1::{Incoming, Txn};
use crate::http::{
    parse_outcome, Buffer, Http1Transaction, MessageHead, ParseResult, MAX_BUFFER_SIZE,
};
use vstd::prelude::*;

verus! {

/// A connection waits for another message exactly if it is to be kept alive at all and the last
/// transaction left it alive.
pub proof fn reused_only_if_kept_alive<K: Key, H: ConnectionHandler>(
    keep_alive_enabled: bool,
    txn: Txn<H::Txn>,
)
    ensures
        Conn::<K, H>::after_txn(keep_alive_enabled, txn).0 is Init <==> keep_alive_enabled
            && txn.state.outcome() == Async::Ready(TxnResult::KeepAlive),
{
}

/// A connection on which something could not be received or understood, or whose client wants to
/// close it, is not used for another message, whatever the handler does.
pub proof fn refused_request_ends_connection<K: Key, H: ConnectionHandler>(
    keep_alive_enabled: bool,
    message: Result<MessageHead<Subject<H>>, Error>,
    handler: H::Txn,
    txn: Txn<H::Txn>,
    after: Txn<H::Txn>,
)
    requires
        Conn::<K, H>::begins(message, handler, State::Http1(txn)),
        message matches Ok(head) ==> !head.lets_live(),
        txn.state.reaches(after.state),
    ensures
        !(Conn::<K, H>::after_txn(keep_alive_enabled, after).0 is Init),
{
    let incoming = choose|incoming: Incoming<Format<H>>|
        #[trigger] Conn::<K, H>::decodes(message, incoming) && txn.starts(incoming, handler);
    let steps = choose|
        steps: Seq<
            Step<
                <Format<H> as Http1Transaction>::Decode,
                <Format<H> as Http1Transaction>::Encode,
            >,
        >,
    | after.state == txn.state.run(steps);
    refused_is_not_kept_alive(incoming, steps);
}

/// A connection whose transaction is over waits for another message exactly if it is to be kept
/// alive at all, the request was understood and lets it live, the response's head does not refuse,
/// and the transaction was not cut short.
pub proof fn reused_unless_refused_or_cut_short<K: Key, H: ConnectionHandler>(
    keep_alive_enabled: bool,
    incoming: Incoming<Format<H>>,
    handler: H::Txn,
    txn: Txn<H::Txn>,
    steps: Seq<
        Step<<Format<H> as Http1Transaction>::Decode, <Format<H> as Http1Transaction>::Encode>,
    >,
    after: Txn<H::Txn>,
)
    requires
        txn.starts(incoming, handler),
        after.state == txn.state.run(steps),
        after.state.outcome() is Ready,
    ensures
        Conn::<K, H>::after_txn(keep_alive_enabled, after).0 is Init <==> {
            &&& keep_alive_enabled
            &&& incoming matches Ok((head, _)) && head.lets_live()
            &&& forall|i: int| !txn.state.disagrees(steps, i)
            &&& forall|i: int| !txn.state.cut_short(steps, i)
        },
{
    kept_alive_unless_cut_short(incoming, steps);
}

/// A turn that begins a message asks for one handler, which conducts it. A turn that finds a message
/// under way, or the connection closed, asks for none.
pub proof fn one_handler_per_message<
    K: Key,
    H: ConnectionHandler,
    F: FnOnce(Buffer, Port<H>) -> (Buffer, Port<H>, Result<usize, IoError>),
>()
    ensures
        forall|conn: &mut Conn<K, H>, port: Port<H>, read_from: F, out: (Port<H>, Option<Async<()>>)|
            #[trigger]
            call_ensures(Conn::<K, H>::tick::<F>, (conn, port, read_from), out) ==> {
                &&& (*conn).state is Init && out.1 is None ==> exists|h: &mut H, handler: H::Txn|
                    {
                        &&& #[trigger] call_ensures(H::transaction, (h,), Some(handler))
                        &&& *h == (*conn).handler
                        &&& *final(h) == (*final(conn)).handler
                        &&& (*final(conn)).state matches State::Http1(txn) && txn.handler
                            == handler
                    }
                &&& !((*conn).state is Init) ==> (*final(conn)).handler == (*conn).handler
            },
{
}

/// Nothing that was received is lost: what a head did not take is there for what comes after it.
pub proof fn received_is_taken_or_kept<I>(bytes: Seq<u8>, parsed: ParseResult<I>)
    ensures
        match parsed {
            Ok(Some((_, n))) if n <= bytes.len() => bytes.take(n as int) + parse_outcome(
                bytes,
                parsed,
            ).0 == bytes,
            Ok(Some(_)) => parse_outcome(bytes, parsed).0 == Seq::<u8>::empty(),
            _ => parse_outcome(bytes, parsed).0 == bytes,
        },
{
}

/// A connection does not wait for the end of a head that has outgrown the buffer.
pub proof fn wait_is_bounded<I>(bytes: Seq<u8>, parsed: ParseResult<I>)
    requires
        parse_outcome(bytes, parsed).1 == Ok::<Option<MessageHead<I>>, Error>(None),
    ensures
        bytes.len() < MAX_BUFFER_SIZE,
{
}

} // verus!
