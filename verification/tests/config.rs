//! What a server is set to.
use std::time::Duration;

use hyper::http::{Conn, ConnectionHandler, Http1Transaction, MessageHead, ParseResult};
use hyper::http::{EncodedHead, Transaction, TransactionHandler};
use hyper::http::h1::{Decoder, Encoder};
use hyper::server::limits::{
    count_sockets, keep_idle, IdleAction, IdleEvent, SocketAction, SocketEvent,
};
use hyper::server::{Listening, MergedItem, Server};
use hyper::{Error, ErrorKind, Headers, HttpVersion, IoError};

struct Nothing;

impl Http1Transaction for Nothing {
    type Incoming = ();
    type Outgoing = ();
    type Decode = ();
    type Encode = ();

    fn parse(_: &[u8]) -> ParseResult<()> {
        Ok(None)
    }

    fn decoder(_: &MessageHead<()>) -> Result<Decoder<()>, Error> {
        Err(Error::TooLarge)
    }

    fn encode(_: &MessageHead<()>) -> EncodedHead<(), ()> {
        EncodedHead {
            head: MessageHead { version: HttpVersion::Http11, subject: (), headers: Headers::new() },
            bytes: Vec::new(),
            encoder: Encoder { codec: (), eof: true, closed: false, prefix: None },
        }
    }
}

impl TransactionHandler for Nothing {
    type Transaction = Nothing;
    type Transport = ();

    fn ready(&mut self, _: &mut Transaction<Nothing>, _: ()) {}
}

struct Refuse;

impl ConnectionHandler for Refuse {
    type Txn = Nothing;

    fn transaction(&mut self) -> Option<Nothing> {
        None
    }
}

#[test]
fn defaults() {
    let server = Server::new(vec!['a', 'b']);
    assert_eq!(server.listeners, vec!['a', 'b']);
    assert!(server.keep_alive);
    assert_eq!(server.idle_timeout, Some(Duration::new(10, 0)));
    assert_eq!(server.max_sockets, 4096);
}

#[test]
fn each_setting_is_its_own() {
    let server = Server::new(vec!['a']).keep_alive(false);
    assert!(!server.keep_alive);
    assert_eq!(server.idle_timeout, Some(Duration::from_secs(10)));
    let server = server.idle_timeout(None).max_sockets(2);
    assert!(!server.keep_alive);
    assert_eq!(server.idle_timeout, None);
    assert_eq!(server.max_sockets, 2);
    assert_eq!(server.listeners, vec!['a']);
}

#[test]
fn handle_takes_the_first_listener_and_the_settings() {
    let server = Server::new(vec!['a', 'b']).keep_alive(false).max_sockets(2);
    let (listener, context) = server.handle("factory");
    assert_eq!(listener, 'a');
    assert_eq!(context.factory, "factory");
    assert_eq!(context.idle_timeout, Some(Duration::from_secs(10)));
    assert!(!context.keep_alive);
    assert_eq!(context.max_sockets, 2);
}

#[test]
fn accepted_connection_is_new() {
    let (_, context) = Server::new(vec!['a']).handle(());
    let conn = context.accept(MergedItem::First((3u8, Refuse))).ok().unwrap();
    assert_eq!(*conn.key(), 3);
    assert!(conn.keep_alive_enabled);
    assert_eq!(conn.io.buf.len(), 0);
    let conn = conn.keep_alive(false);
    assert!(!conn.keep_alive_enabled);
    assert!(Conn::new(3u8, Refuse).keep_alive_enabled);
}

#[test]
fn shutdown_ends_the_server() {
    let (_, context) = Server::new(vec!['a']).handle(());
    let shutdown = IoError::new(ErrorKind::Other, "shutdown");
    let res = context.accept::<u8, Refuse>(MergedItem::Second);
    assert_eq!(res.err(), Some(shutdown));
    let res = context.accept(MergedItem::Both((3u8, Refuse)));
    assert_eq!(res.err(), Some(IoError::new(ErrorKind::Other, "shutdown")));
}

#[test]
fn addresses_are_listed() {
    let listening = |addrs: &[&str]| Listening {
        addrs: addrs.iter().map(|addr| addr.to_string()).collect(),
    };
    assert_eq!(listening(&[]).to_string(), "");
    assert_eq!(listening(&["127.0.0.1:80"]).to_string(), "127.0.0.1:80");
    assert_eq!(listening(&["a", "b"]).to_string(), "ab");
    assert_eq!(listening(&["a", "b", "c", "d"]).to_string(), "ab, c, d");
    assert_eq!(listening(&["a", "b"]).addrs(), ["a", "b"]);
}

#[test]
fn no_more_sockets_are_open_than_may_be() {
    let step = |open, event| count_sockets(2, open, event);
    assert_eq!(step(0, SocketEvent::Free), (0, SocketAction::Accept));
    assert_eq!(step(0, SocketEvent::Accepted), (1, SocketAction::Serve));
    assert_eq!(step(1, SocketEvent::Free), (1, SocketAction::Accept));
    assert_eq!(step(1, SocketEvent::Accepted), (2, SocketAction::Serve));
    assert_eq!(step(2, SocketEvent::Free), (2, SocketAction::Wait));
    assert_eq!(step(2, SocketEvent::Accepted), (2, SocketAction::Refuse));
    assert_eq!(step(2, SocketEvent::Ended), (1, SocketAction::Resume));
    assert_eq!(step(0, SocketEvent::Ended), (0, SocketAction::Resume));
    assert_eq!(count_sockets(0, 0, SocketEvent::Free), (0, SocketAction::Wait));
}

#[test]
fn timer_runs_from_when_a_connection_became_idle() {
    let ten = Duration::from_secs(10);
    let step = |running, event| keep_idle(Some(ten), running, event);
    let waits = |idle, begun| IdleEvent::Waits { idle, begun };
    assert!(matches!(step(false, waits(true, false)), (true, IdleAction::Start(d)) if d == ten));
    assert!(matches!(step(true, waits(true, false)), (true, IdleAction::Keep)));
    assert!(matches!(step(true, waits(true, true)), (true, IdleAction::Start(d)) if d == ten));
    assert!(matches!(step(true, waits(false, true)), (false, IdleAction::Stop)));
    assert!(matches!(step(true, waits(false, false)), (false, IdleAction::Stop)));
    assert!(matches!(step(true, IdleEvent::Fired), (false, IdleAction::Close)));
    assert!(matches!(step(false, IdleEvent::Fired), (false, IdleAction::Keep)));
    assert!(matches!(keep_idle(None, false, waits(true, true)), (false, IdleAction::Stop)));
}
