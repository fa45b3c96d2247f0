//! Connections: one message after another, as long as both sides keep them alive.
use crate::error::{Async, Error, IoError};
use crate::http::h1::{Decoder, Incoming, Txn};
use crate::http::{Buffer, Http1Transaction, Io, MessageHead, Transaction};
use crate::version::HttpVersion;
use vstd::prelude::*;

verus! {

/// How a transaction left its connection.
#[derive(Clone, Copy, Debug, PartialEq, Eq, Structural)]
pub enum TxnResult {
    /// The connection can be used for another transaction.
    KeepAlive,
    /// The connection is to be closed.
    Close,
}

/// Conducts one transaction.
pub trait TransactionHandler {
    /// The message format of the transaction.
    type Transaction: Http1Transaction;

    /// What the transaction's connection is established over.
    type Transport;

    /// Called whenever the transaction may be able to go on. Gives back the transport.
    fn ready(
        &mut self,
        txn: &mut Transaction<Self::Transaction>,
        transport: Self::Transport,
    ) -> Self::Transport;
}

/// Makes a handler for each transaction of one connection.
pub trait ConnectionHandler {
    /// The handler of one transaction.
    type Txn: TransactionHandler;

    /// Makes a handler for the next transaction, or refuses it.
    fn transaction(&mut self) -> Option<Self::Txn>;
}

/// What tells the connections of a server apart.
pub trait Key: Eq + std::hash::Hash + Clone + std::fmt::Debug {

}

impl<T: Eq + std::hash::Hash + Clone + std::fmt::Debug> Key for T {

}

/// Makes a handler for each connection.
pub trait ConnectionHandlerFactory<K: Key> {
    /// The handler of one connection.
    type Output: ConnectionHandler;

    /// Makes a handler for a new connection, or refuses it.
    fn create(&mut self, seed: Seed<'_, K>) -> Option<Self::Output>;
}

/// What a connection handler is made for.
pub struct Seed<'a, K: Key>(pub &'a K);

impl<'a, K: Key> Seed<'a, K> {
    /// The key of the connection.
    pub fn key(&self) -> (key: &K)
        ensures
            *key == *self.0,
    {
        self.0
    }
}

/// What a connection is at.
pub enum State<N: TransactionHandler> {
    /// Waiting for the head of the next message.
    Init,
    /// Http1 will only ever use a connection to send and receive a single
    /// message at a time. Once a H1 status has been determined, we will either
    /// be reading or writing an H1 message, and optionally multiple if
    /// keep-alive is true.
    Http1(Txn<N>),
    /// Done with.
    Closed,
}

/// This handles a connection, which will have been established over a
/// transport (like a socket), and will likely include multiple
/// transactions over HTTP.
///
/// The connection will determine when a message begins and ends, creating
/// a new `TransactionHandler` for each one, as well as determine if this
/// connection can be kept alive after the message, or if it is complete.
pub struct Conn<K: Key, H: ConnectionHandler> {
    pub handler: H,
    pub io: Io,
    pub keep_alive_enabled: bool,
    pub key: K,
    pub state: State<H::Txn>,
}

/// The message format that a connection's transactions speak.
pub type Format<H> = <<H as ConnectionHandler>::Txn as TransactionHandler>::Transaction;

/// What a connection is established over.
pub type Port<H> = <<H as ConnectionHandler>::Txn as TransactionHandler>::Transport;

/// The subject of the messages that come in on a connection.
pub type Subject<H> = <Format<H> as Http1Transaction>::Incoming;

impl<K: Key, H: ConnectionHandler> Conn<K, H> {
    /// What was received, if it was a whole message head or an error.
    pub open spec fn message(parsed: Result<Option<MessageHead<Subject<H>>>, Error>) -> Option<
        Result<MessageHead<Subject<H>>, Error>,
    > {
        match parsed {
            Ok(None) => None,
            Ok(Some(head)) => Some(Ok(head)),
            Err(e) => Some(Err(e)),
        }
    }

    /// The version that a message is handled as: an error is handled as a message of the oldest
    /// version of HTTP/1.
    pub open spec fn handled_version(message: Result<MessageHead<Subject<H>>, Error>) -> HttpVersion {
        match message {
            Ok(head) => head.version,
            Err(_) => HttpVersion::Http10,
        }
    }

    /// What the transaction of a message starts from: the head and the decoder of its body, or the
    /// error of receiving the one or making the other.
    pub open spec fn decodes(
        message: Result<MessageHead<Subject<H>>, Error>,
        incoming: Incoming<Format<H>>,
    ) -> bool {
        match message {
            Ok(head) => match incoming {
                Ok((h, decoder)) => h == head && call_ensures(
                    <Format<H> as Http1Transaction>::decoder,
                    (&head,),
                    Ok(decoder),
                ),
                Err(e) => call_ensures(
                    <Format<H> as Http1Transaction>::decoder,
                    (&head,),
                    Err(e),
                ),
            },
            Err(e) => incoming == Err::<
                (MessageHead<Subject<H>>, Decoder<<Format<H> as Http1Transaction>::Decode>),
                Error,
            >(e),
        }
    }

    /// The connection is at the start of the transaction of a message, with this handler.
    pub open spec fn begins(
        message: Result<MessageHead<Subject<H>>, Error>,
        handler: H::Txn,
        state: State<H::Txn>,
    ) -> bool {
        state matches State::Http1(txn) && exists|incoming: Incoming<Format<H>>|
            #[trigger] Self::decodes(message, incoming) && txn.starts(incoming, handler)
    }

    /// What becomes of the connection once its transaction has come to stand at `txn`, and what
    /// polling the connection gives, if it gives anything yet.
    pub open spec fn after_txn(keep_alive_enabled: bool, txn: Txn<H::Txn>) -> (
        State<H::Txn>,
        Option<Async<()>>,
    ) {
        match txn.state.outcome() {
            Async::NotReady => (State::Http1(txn), Some(Async::NotReady)),
            Async::Ready(TxnResult::KeepAlive) => (
                if keep_alive_enabled {
                    State::Init
                } else {
                    State::Closed
                },
                None,
            ),
            Async::Ready(TxnResult::Close) => (State::Closed, None),
        }
    }

    /// The connection is new: nothing has been received on it, and it waits for the head of the
    /// first message.
    pub open spec fn is_new(self, key: K, handler: H, keep_alive_enabled: bool) -> bool {
        &&& self.key == key
        &&& self.handler == handler
        &&& self.keep_alive_enabled == keep_alive_enabled
        &&& self.io.buf@ == Seq::<u8>::empty()
        &&& self.state is Init
    }

    /// A new connection, to be kept alive where its messages allow it.
    pub fn new(key: K, handler: H) -> (conn: Conn<K, H>)
        ensures
            conn.is_new(key, handler, true),
    {
        Conn {
            handler: handler,
            io: Io { buf: Buffer::new() },
            keep_alive_enabled: true,
            key: key,
            state: State::Init,
        }
    }

    /// Enables or disables keeping the connection alive.
    pub fn keep_alive(self, val: bool) -> (conn: Conn<K, H>)
        ensures
            conn == (Conn { keep_alive_enabled: val, ..self }),
    {
        Conn { keep_alive_enabled: val, ..self }
    }

    /// The key of the connection.
    pub fn key(&self) -> (key: &K)
        ensures
            *key == self.key,
    {
        &self.key
    }

    /// Closes the connection if it is idle, that is if it waits for a message to begin. To be
    /// called when the connection has been waiting for as long as an idle connection is kept.
    pub fn close_idle(&mut self)
        ensures
            *final(self) == (if old(self).state is Init {
                Conn { state: State::Closed, ..*old(self) }
            } else {
                *old(self)
            }),
    {
        match self.state {
            State::Init => {
                self.state = State::Closed;
            },
            _ => {},
        }
    }

    /// Whether the connection waits for a message to begin.
    pub fn is_idle(&self) -> (idle: bool)
        ensures
            idle == (self.state is Init),
    {
        match self.state {
            State::Init => true,
            _ => false,
        }
    }

    /// Takes the connection one turn further: a message head is received from `transport` by
    /// `read_from`, or the handler of the transaction goes on. Gives back the transport, and `None`
    /// where the next turn is due at once.
    #[verifier::spinoff_prover]
    pub fn tick<F: FnOnce(Buffer, Port<H>) -> (Buffer, Port<H>, Result<usize, IoError>)>(
        &mut self,
        transport: Port<H>,
        read_from: F,
    ) -> (out: (Port<H>, Option<Async<()>>))
        requires
            forall|buf: Buffer| #[trigger] call_requires(read_from, (buf, transport)),
        ensures
            final(self).key == old(self).key,
            final(self).keep_alive_enabled == old(self).keep_alive_enabled,
            match old(self).state {
                State::Closed => {
                    &&& out == (transport, Some(Async::Ready(())))
                    &&& *final(self) == *old(self)
                },
                State::Http1(txn) => {
                    &&& final(self).handler == old(self).handler
                    &&& exists|
                        h: &mut H::Txn,
                        t: &mut Transaction<Format<H>>,
                        after: Txn<H::Txn>,
                    |
                        {
                            &&& #[trigger] call_ensures(
                                <H::Txn as TransactionHandler>::ready,
                                (h, t, transport),
                                out.0,
                            )
                            &&& *h == txn.handler
                            &&& *t == txn.at_work(old(self).io)
                            &&& *final(h) == after.handler
                            &&& *final(t) == #[trigger] after.at_work(final(self).io)
                            &&& (final(self).state, out.1) == Self::after_txn(
                                old(self).keep_alive_enabled,
                                after,
                            )
                        }
                },
                State::Init => exists|parsed: Result<Option<MessageHead<Subject<H>>>, Error>|
                    {
                        &&& #[trigger] old(self).io.parses::<Port<H>, Format<H>, F>(
                            transport,
                            read_from,
                            final(self).io,
                            out.0,
                            parsed,
                        )
                        &&& match Self::message(parsed) {
                            None => {
                                &&& final(self).handler == old(self).handler
                                &&& final(self).state is Init
                                &&& out.1 == Some(Async::<()>::NotReady)
                            },
                            Some(message) if !Self::handled_version(message).is_http1() => {
                                &&& final(self).handler == old(self).handler
                                &&& final(self).state is Closed
                                &&& out.1 == Some(Async::Ready(()))
                            },
                            Some(message) => exists|h: &mut H, made: Option<H::Txn>|
                                {
                                    &&& #[trigger] call_ensures(H::transaction, (h,), made)
                                    &&& *h == old(self).handler
                                    &&& *final(h) == final(self).handler
                                    &&& match made {
                                        None => {
                                            &&& final(self).state is Closed
                                            &&& out.1 == Some(Async::Ready(()))
                                        },
                                        Some(handler) => {
                                            &&& Self::begins(message, handler, final(self).state)
                                            &&& out.1 is None
                                        },
                                    }
                                },
                        }
                    },
            },
    {
        let mut state = State::Closed;
        std::mem::swap(&mut state, &mut self.state);
        match state {
            State::Init => {
                let (port, parsed) = self.io.parse::<Port<H>, Format<H>, F>(transport, read_from);
                let ghost received = parsed;
                let message = match parsed {
                    Ok(Some(head)) => Some((head.version, Ok(head))),
                    Ok(None) => None,
                    Err(e) => Some((HttpVersion::Http10, Err(e))),
                };
                let res = match message {
                    None => {
                        self.state = State::Init;
                        Some(Async::NotReady)
                    },
                    Some((HttpVersion::Http10, head)) | Some((HttpVersion::Http11, head)) => {
                        let made = self.handler.transaction();
                        match made {
                            None => Some(Async::Ready(())),
                            Some(handler) => {
                                let incoming = match head {
                                    Ok(head) => match <Format<H> as Http1Transaction>::decoder(
                                        &head,
                                    ) {
                                        Ok(decoder) => Ok((head, decoder)),
                                        Err(e) => Err(e),
                                    },
                                    Err(e) => Err(e),
                                };
                                assert(Self::decodes(Self::message(received)->0, incoming));
                                self.state = State::Http1(Txn::incoming(incoming, handler));
                                None
                            },
                        }
                    },
                    Some(_) => Some(Async::Ready(())),
                };
                let out = (port, res);
                assert(old(self).io.parses::<Port<H>, Format<H>, F>(
                    transport,
                    read_from,
                    self.io,
                    out.0,
                    received,
                ));
                return out;
            },
            State::Http1(txn) => {
                let mut io = Io { buf: Buffer::new() };
                std::mem::swap(&mut io, &mut self.io);
                let (txn, io, port, outcome) = txn.tick(io, transport);
                self.io = io;
                let ghost after = txn;
                let res = match outcome {
                    Async::NotReady => {
                        self.state = State::Http1(txn);
                        Some(Async::NotReady)
                    },
                    Async::Ready(TxnResult::KeepAlive) => {
                        if self.keep_alive_enabled {
                            self.state = State::Init;
                        }
                        None
                    },
                    Async::Ready(TxnResult::Close) => None,
                };
                let out = (port, res);
                assert(after.at_work(self.io) == after.at_work(io) && out.0 == port);
                return out;
            },
            State::Closed => (transport, Some(Async::Ready(()))),
        }
    }

    /// A run of turns: where the connection and the transport stood in front of each of them, and
    /// after the last; and what each of them gave. A message under way keeps the connection's
    /// handler as it is, and all turns but the last call for another.
    pub open spec fn is_run(
        trace: Seq<Conn<K, H>>,
        ports: Seq<Port<H>>,
        results: Seq<Option<Async<()>>>,
    ) -> bool {
        &&& trace.len() == results.len() + 1
        &&& ports.len() == results.len() + 1
        &&& forall|i: int|
            0 <= i < results.len() && !(trace[i].state is Init) ==> (#[trigger] trace[i + 1]).handler
                == trace[i].handler
        &&& forall|i: int| 0 <= i < results.len() - 1 ==> #[trigger] results[i] is None
    }

    /// Takes the connection on, turn after turn, until it has to wait or is over, for at most as
    /// many turns as `turns`. Gives back the transport, and `None` where those did not suffice.
    #[verifier::spinoff_prover]
    pub fn poll<F: Fn(Buffer, Port<H>) -> (Buffer, Port<H>, Result<usize, IoError>) + Copy>(
        &mut self,
        transport: Port<H>,
        read_from: F,
        turns: usize,
    ) -> (out: (Port<H>, Option<Async<()>>))
        requires
            forall|buf: Buffer, port: Port<H>| #[trigger] call_requires(read_from, (buf, port)),
        ensures
            // From where they stood, each turn took the connection and the transport on to where
            // the next one found them.
            exists|
                trace: Seq<Conn<K, H>>,
                ports: Seq<Port<H>>,
                results: Seq<Option<Async<()>>>,
            |
                {
                    &&& #[trigger] Self::is_run(trace, ports, results)
                    &&& trace.first() == *old(self) && ports.first() == transport
                    &&& trace.last() == *final(self) && ports.last() == out.0
                    &&& forall|i: int|
                        #![trigger results[i]]
                        0 <= i < results.len() ==> exists|conn: &mut Conn<K, H>|
                            {
                                &&& call_ensures(
                                    Conn::<K, H>::tick::<F>,
                                    (conn, ports[i], read_from),
                                    (ports[i + 1], results[i]),
                                )
                                &&& *conn == trace[i]
                                &&& *final(conn) == trace[i + 1]
                            }
                    &&& match out.1 {
                        None => results == Seq::new(turns as nat, |i: int| None::<Async<()>>),
                        Some(_) => 0 < results.len() <= turns && results.last() == out.1,
                    }
                },
            // It is over exactly when it is closed, and nothing happens then, to it or to the
            // transport.
            out.1 == Some(Async::Ready(())) ==> final(self).state is Closed,
            out.1 == Some(Async::<()>::NotReady) ==> !(final(self).state is Closed),
            old(self).state is Closed ==> {
                &&& *final(self) == *old(self)
                &&& out.0 == transport
                &&& turns > 0 ==> out.1 == Some(Async::Ready(()))
            },
            // Where it is not to be kept alive, it does not wait for another message.
            !old(self).keep_alive_enabled && !(old(self).state is Init) ==> !(
            final(self).state is Init),
            final(self).key == old(self).key,
            final(self).keep_alive_enabled == old(self).keep_alive_enabled,
    {
        let mut left: usize = turns;
        let mut port = transport;
        let ghost mut trace: Seq<Conn<K, H>> = seq![*self];
        let ghost mut ports: Seq<Port<H>> = seq![port];
        let ghost mut results: Seq<Option<Async<()>>> = seq![];
        while left > 0
            invariant
                forall|buf: Buffer, port: Port<H>| #[trigger] call_requires(read_from, (buf, port)),
                left <= turns,
                results == Seq::new((turns - left) as nat, |i: int| None::<Async<()>>),
                Self::is_run(trace, ports, results),
                trace.first() == *old(self) && ports.first() == transport,
                trace.last() == *self && ports.last() == port,
                forall|i: int|
                    #![trigger results[i]]
                    0 <= i < results.len() ==> exists|conn: &mut Conn<K, H>|
                        {
                            &&& call_ensures(
                                Conn::<K, H>::tick::<F>,
                                (conn, ports[i], read_from),
                                (ports[i + 1], results[i]),
                            )
                            &&& *conn == trace[i]
                            &&& *final(conn) == trace[i + 1]
                        },
                old(self).state is Closed ==> left == turns && *self == *old(self) && port
                    == transport,
                !old(self).keep_alive_enabled && !(old(self).state is Init) ==> !(
                self.state is Init),
                self.key == old(self).key,
                self.keep_alive_enabled == old(self).keep_alive_enabled,
            decreases left,
        {
            let (next, res) = self.tick(port, read_from);
            port = next;
            proof {
                trace = trace.push(*self);
                ports = ports.push(port);
                results = results.push(res);
            }
            left = left - 1;
            if res.is_some() {
                assert(Self::is_run(trace, ports, results));
                return (port, res);
            }
        }
        (port, None)
    }
}

} // verus!
