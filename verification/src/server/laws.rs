//! What holds of every transaction that a server's handler conducts.
use crate::error::{Async, Error};
use crate::http;
use crate::http::conn::{Conn, ConnectionHandler, Key, TransactionHandler, TxnResult};
use crate::http::h1::Txn;
use crate::http::{Io, MessageHead};
use crate::server::txn::{Created, Handle, Handler, HandlerFactory, Subject, Transaction};
use vstd::prelude::*;

verus! {

/// A server's handler conducts its transaction through `Handle` as it does by itself: it gets to
/// work once, on that transaction and transport, and they end as it leaves them.
pub proof fn handle_only_hands_on<H: Handler>()
    ensures
        forall|
            handle: &mut Handle<H>,
            txn: &mut http::Transaction<H::Transaction>,
            transport: H::Transport,
            out: H::Transport,
        | #[trigger]
            call_ensures(
                <Handle<H> as TransactionHandler>::ready,
                (handle, txn, transport),
                out,
            ) ==> exists|h: &mut H, t: &mut Transaction<'_, H::Transaction>|
                {
                    &&& #[trigger] call_ensures(H::ready, (h, t, transport), out)
                    &&& *h == (*handle).handler
                    &&& *final(h) == (*final(handle)).handler
                    &&& *(*t).inner == *txn
                    &&& *final((*t).inner) == *final(txn)
                    &&& *(*final(t)).inner == *final((*final(t)).inner)
                },
{
}

/// What a server's handler makes of a transaction by steps, it makes of it by steps through
/// `Handle`.
pub proof fn handle_reaches<H: Handler>()
    requires
        forall|
            h: &mut H,
            t: &mut Transaction<'_, H::Transaction>,
            transport: H::Transport,
            out: H::Transport,
        | #[trigger]
            call_ensures(H::ready, (h, t, transport), out) ==> {
                &&& (*t).inner.txn().state.reaches((*final(t)).inner.txn().state)
                &&& *final((*final(t)).inner) == *final((*t).inner)
            },
    ensures
        forall|
            handle: &mut Handle<H>,
            txn: &mut http::Transaction<H::Transaction>,
            transport: H::Transport,
            out: H::Transport,
        | #[trigger]
            call_ensures(
                <Handle<H> as TransactionHandler>::ready,
                (handle, txn, transport),
                out,
            ) ==> (*txn).txn().state.reaches((*final(txn)).txn().state),
{
}

/// The factory, as it stands, makes no handler for this request, or for this error.
pub open spec fn refuses<F: HandlerFactory>(
    factory: F,
    incoming: Result<MessageHead<Subject<F::Output>>, Error>,
) -> bool {
    forall|f: &mut F, created: Result<F::Output, Error>| #[trigger]
        call_ensures(F::create, (f, incoming), created) && *f == factory ==> created is Err
}

/// Where the factory makes no handler, nothing is read or written, and the transaction is over when
/// it has got to work for the first time, and takes its connection with it.
pub proof fn refused_transaction_closes<
    K: Key,
    H: ConnectionHandler<Txn = Handle<Created<F>>>,
    F: HandlerFactory,
>(
    keep_alive_enabled: bool,
    incoming: Result<MessageHead<Subject<F::Output>>, Error>,
    txn: Txn<Handle<Created<F>>>,
    io: Io,
    transport: <F::Output as Handler>::Transport,
    out: <F::Output as Handler>::Transport,
)
    requires
        refuses(txn.handler.handler.factory, incoming),
        txn.heads.incoming == Some(incoming),
    ensures
        forall|
            h: &mut Handle<Created<F>>,
            t: &mut http::Transaction<<F::Output as Handler>::Transaction>,
            after: Txn<Handle<Created<F>>>,
            left: Io,
        |
            {
                &&& #[trigger] call_ensures(
                    <Handle<Created<F>> as TransactionHandler>::ready,
                    (h, t, transport),
                    out,
                )
                &&& *h == txn.handler
                &&& *t == txn.at_work(io)
                &&& *final(t) == #[trigger] after.at_work(left)
            } ==> {
                &&& out == transport
                &&& left == io
                &&& after.state == txn.state.aborted()
                &&& after.state.outcome() == Async::Ready(TxnResult::Close)
                &&& Conn::<K, H>::after_txn(keep_alive_enabled, after).0 is Closed
            },
{
    assert(met_by::<Created<F>>(txn.at_work(io), transport) == (txn.at_work(io), transport));
}

/// A transaction and a transport, in the types that a handler meets them in.
spec fn met_by<H: Handler>(
    txn: http::Transaction<H::Transaction>,
    transport: H::Transport,
) -> (http::Transaction<H::Transaction>, H::Transport) {
    (txn, transport)
}

} // verus!
