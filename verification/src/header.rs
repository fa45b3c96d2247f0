//! The part of a message's headers that decides what becomes of the connection.
use vstd::prelude::*;

verus! {

/// One option of the `Connection` header.
#[derive(Debug, PartialEq, Eq)]
pub enum ConnectionOption {
    /// The `keep-alive` option.
    KeepAlive,
    /// The `close` option.
    Close,
    /// The name of a header that concerns this connection only.
    ConnectionHeader(String),
}

/// The `Connection` header: a list of options.
#[derive(Debug, PartialEq, Eq)]
pub struct Connection(pub Vec<ConnectionOption>);

impl Connection {
    /// `Connection: close`
    pub fn close() -> (connection: Connection)
        ensures
            connection.0@ == seq![ConnectionOption::Close],
    {
        Connection(vec![ConnectionOption::Close])
    }

    /// `Connection: keep-alive`
    pub fn keep_alive() -> (connection: Connection)
        ensures
            connection.0@ == seq![ConnectionOption::KeepAlive],
    {
        Connection(vec![ConnectionOption::KeepAlive])
    }

    /// Whether `keep-alive` is among the options.
    pub fn contains_keep_alive(&self) -> (found: bool)
        ensures
            found == self.0@.contains(ConnectionOption::KeepAlive),
    {
        let mut i: usize = 0;
        while i < self.0.len()
            invariant
                i <= self.0@.len(),
                forall|j: int| 0 <= j < i ==> self.0@[j] != ConnectionOption::KeepAlive,
            decreases self.0@.len() - i,
        {
            match &self.0[i] {
                ConnectionOption::KeepAlive => {
                    return true;
                },
                _ => {},
            }
            i = i + 1;
        }
        false
    }

    /// Whether `close` is among the options.
    pub fn contains_close(&self) -> (found: bool)
        ensures
            found == self.0@.contains(ConnectionOption::Close),
    {
        let mut i: usize = 0;
        while i < self.0.len()
            invariant
                i <= self.0@.len(),
                forall|j: int| 0 <= j < i ==> self.0@[j] != ConnectionOption::Close,
            decreases self.0@.len() - i,
        {
            match &self.0[i] {
                ConnectionOption::Close => {
                    return true;
                },
                _ => {},
            }
            i = i + 1;
        }
        false
    }
}

/// The headers of a message: the `Connection` header, and every other field as it was sent.
#[derive(Debug, PartialEq, Eq)]
pub struct Headers {
    pub connection: Option<Connection>,
    pub raw: Vec<(String, Vec<u8>)>,
}

impl Headers {
    /// No headers at all.
    pub fn new() -> (headers: Headers)
        ensures
            headers.connection is None,
            headers.raw@ == Seq::<(String, Vec<u8>)>::empty(),
    {
        Headers { connection: None, raw: Vec::new() }
    }

    /// Sets the `Connection` header, in place of one that was there.
    pub fn set(&mut self, connection: Connection)
        ensures
            *final(self) == (Headers { connection: Some(connection), ..*old(self) }),
    {
        self.connection = Some(connection);
    }

    /// The `Connection` header, if there is one.
    pub fn get(&self) -> (connection: Option<&Connection>)
        ensures
            connection is Some == self.connection is Some,
            connection matches Some(c) ==> Some(*c) == self.connection,
    {
        self.connection.as_ref()
    }

    /// Whether there is a `Connection` header with the option.
    pub open spec fn connection_has(self, option: ConnectionOption) -> bool {
        self.connection matches Some(connection) && connection.0@.contains(option)
    }
}

impl Default for Headers {
    fn default() -> (headers: Headers)
        ensures
            headers.connection is None,
            headers.raw@ == Seq::<(String, Vec<u8>)>::empty(),
    {
        Headers::new()
    }
}

} // verus!
