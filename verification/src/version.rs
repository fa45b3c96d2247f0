//! Versions of the HTTP protocol.
use vstd::prelude::*;

verus! {

/// The version a message head states.
#[derive(Clone, Copy, Debug, PartialEq, Eq, Structural)]
pub enum HttpVersion {
    Http09,
    Http10,
    Http11,
    Http20,
}

impl Default for HttpVersion {
    fn default() -> (version: HttpVersion)
        ensures
            version == HttpVersion::Http11,
    {
        HttpVersion::Http11
    }
}

impl HttpVersion {
    /// Whether messages of this version are HTTP/1 messages, one at a time on a connection.
    pub open spec fn is_http1(self) -> bool {
        self == HttpVersion::Http10 || self == HttpVersion::Http11
    }
}

} // verus!
