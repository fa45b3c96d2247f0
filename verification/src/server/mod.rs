//! HTTP Server
//!
//! A `Server` is created to listen on a port, parse HTTP requests, and hand
//! them off to a handler.
use crate::error::{ErrorKind, IoError};
use crate::http::{Conn, ConnectionHandler, Key};
use std::time::Duration;
use vstd::prelude::*;

pub mod effects;
pub mod laws;
pub mod limits;
pub mod txn;

pub use crate::server::txn::{Created, Handle, Handler, HandlerFactory, Transaction};

verus! {

/// The length of time that `Duration::from_secs` makes of a number of whole seconds.
pub uninterp spec fn seconds(secs: u64) -> Duration;

/// `std::time::Duration::from_secs` makes the same length of time of the same number of whole
/// seconds every time. A `Duration` is opaque here, so that this length of time lasts that many
/// seconds is left unsaid.
pub assume_specification[ Duration::from_secs ](secs: u64) -> (duration: Duration)
    ensures
        duration == seconds(secs),
;

/// A Server that can accept incoming network requests.
#[derive(Debug)]
pub struct Server<A> {
    pub listeners: Vec<A>,
    pub keep_alive: bool,
    pub idle_timeout: Option<Duration>,
    pub max_sockets: usize,
}

impl<A> Server<A> {
    /// Creates a new Server from one or more Listeners. There has to be one at least.
    pub fn new(listeners: Vec<A>) -> (server: Server<A>)
        requires
            listeners@.len() > 0,
        ensures
            server.listeners == listeners,
            server.keep_alive,
            server.idle_timeout == Some(seconds(10)),
            server.max_sockets == 4096,
    {
        Server {
            listeners: listeners,
            keep_alive: true,
            idle_timeout: Some(Duration::from_secs(10)),
            max_sockets: 4096,
        }
    }

    /// Enables or disables HTTP keep-alive.
    ///
    /// Default is true.
    pub fn keep_alive(self, val: bool) -> (server: Server<A>)
        ensures
            server == (Server { keep_alive: val, ..self }),
    {
        Server { keep_alive: val, ..self }
    }

    /// Sets how long an idle connection will be kept before closing.
    ///
    /// Default is 10 seconds.
    pub fn idle_timeout(self, val: Option<Duration>) -> (server: Server<A>)
        ensures
            server == (Server { idle_timeout: val, ..self }),
    {
        Server { idle_timeout: val, ..self }
    }

    /// Sets the maximum open sockets for this Server.
    ///
    /// Default is 4096, but most servers can handle much more than this.
    pub fn max_sockets(self, val: usize) -> (server: Server<A>)
        ensures
            server == (Server { max_sockets: val, ..self }),
    {
        Server { max_sockets: val, ..self }
    }

    /// Starts handling connections: gives the listener to accept them from, the first one, and
    /// what is to be done with them.
    pub fn handle<F>(self, factory: F) -> (out: (A, Context<F>))
        requires
            self.listeners@.len() > 0,
        ensures
            out.0 == self.listeners@[0],
            out.1 == (Context {
                factory: factory,
                idle_timeout: self.idle_timeout,
                keep_alive: self.keep_alive,
                max_sockets: self.max_sockets,
            }),
    {
        let mut listeners = self.listeners;
        let listener = listeners.remove(0);
        (
            listener,
            Context {
                factory: factory,
                idle_timeout: self.idle_timeout,
                keep_alive: self.keep_alive,
                max_sockets: self.max_sockets,
            },
        )
    }
}

/// What came up while the server was waiting: a connection, the signal to shut down, or both.
#[derive(Debug)]
pub enum MergedItem<S> {
    First(S),
    Second,
    Both(S),
}

/// What a running server goes by.
#[derive(Debug)]
pub struct Context<F> {
    pub factory: F,
    pub idle_timeout: Option<Duration>,
    pub keep_alive: bool,
    pub max_sockets: usize,
}

/// The error that takes a server out of its loop.
pub open spec fn is_shutdown(error: IoError) -> bool {
    error.kind == ErrorKind::Other && error.message@ == "shutdown"@
}

impl<F> Context<F> {
    /// Makes a connection of one that was accepted, given its key and its handler. The signal to
    /// shut down ends the server, even where a connection came with it.
    pub fn accept<K: Key, H: ConnectionHandler>(&self, merged: MergedItem<(K, H)>) -> (res: Result<
        Conn<K, H>,
        IoError,
    >)
        ensures
            match merged {
                MergedItem::First((key, handler)) => res matches Ok(conn) && conn.is_new(
                    key,
                    handler,
                    self.keep_alive,
                ),
                _ => res matches Err(e) && is_shutdown(e),
            },
    {
        match merged {
            MergedItem::First((key, handler)) => {
                Ok(Conn::new(key, handler).keep_alive(self.keep_alive))
            },
            _ => Err(IoError::new(ErrorKind::Other, "shutdown")),
        }
    }
}

/// A handle of the running server.
#[derive(Debug)]
pub struct Listening<A> {
    pub addrs: Vec<A>,
}

impl<A> Listening<A> {
    /// The addresses this server is listening on.
    pub fn addrs(&self) -> (addrs: &[A])
        ensures
            addrs@ == self.addrs@,
    {
        self.addrs.as_slice()
    }
}

/// Addresses put together, with a comma in front of the third and every later one.
pub open spec fn listed(addrs: Seq<String>) -> Seq<char>
    decreases addrs.len(),
{
    if addrs.len() == 0 {
        Seq::empty()
    } else if addrs.len() > 2 {
        listed(addrs.drop_last()) + ", "@ + addrs.last()@
    } else {
        listed(addrs.drop_last()) + addrs.last()@
    }
}

impl Listening<String> {
    /// The addresses, put together.
    pub fn to_string(&self) -> (text: String)
        ensures
            text@ == listed(self.addrs@),
    {
        let mut text = String::new();
        let mut i: usize = 0;
        while i < self.addrs.len()
            invariant
                i <= self.addrs@.len(),
                text@ == listed(self.addrs@.take(i as int)),
            decreases self.addrs@.len() - i,
        {
            if i > 1 {
                text.append(", ");
            }
            text.append(self.addrs[i].as_str());
            i = i + 1;
            assert(self.addrs@.take(i as int).drop_last() =~= self.addrs@.take(i - 1));
        }
        assert(self.addrs@.take(self.addrs@.len() as int) =~= self.addrs@);
        text
    }
}

} // verus!
