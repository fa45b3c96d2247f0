//! The protocol core of an HTTP/1 server: when a connection may be kept alive, how a
//! transaction moves from its request to its response, and when a connection is over.
//!
//! The core performs no I/O. Where a transport has to be read or written, the operation comes in
//! as a function that takes the transport and gives it back. What is promised speaks of both, and
//! holds for every answer that a function's own requirements admit.
pub mod error;
pub mod header;
pub mod http;
pub mod server;
pub mod version;

pub use crate::error::{Async, Error, ErrorKind, IoError, Poll};
pub use crate::header::{Connection, ConnectionOption, Headers};
pub use crate::version::HttpVersion;
