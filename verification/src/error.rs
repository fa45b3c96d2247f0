//! Errors, and the readiness of an operation that may have to wait.
use vstd::prelude::*;

verus! {

/// What went wrong in an operation on a transport: the kinds of `std::io::ErrorKind`.
///
/// The protocol goes by one of them, `WouldBlock`: the operation would have had to wait, and can be
/// tried again later. It makes errors of two, `UnexpectedEof` and `Other`. The rest are handed on.
#[derive(Clone, Copy, Debug, PartialEq, Eq, Structural)]
pub enum ErrorKind {
    NotFound,
    PermissionDenied,
    ConnectionRefused,
    ConnectionReset,
    HostUnreachable,
    NetworkUnreachable,
    ConnectionAborted,
    NotConnected,
    AddrInUse,
    AddrNotAvailable,
    NetworkDown,
    BrokenPipe,
    AlreadyExists,
    WouldBlock,
    NotADirectory,
    IsADirectory,
    DirectoryNotEmpty,
    ReadOnlyFilesystem,
    StaleNetworkFileHandle,
    InvalidInput,
    InvalidData,
    TimedOut,
    WriteZero,
    StorageFull,
    NotSeekable,
    QuotaExceeded,
    FileTooLarge,
    ResourceBusy,
    ExecutableFileBusy,
    Deadlock,
    CrossesDevices,
    TooManyLinks,
    ArgumentListTooLong,
    Interrupted,
    Unsupported,
    UnexpectedEof,
    OutOfMemory,
    Other,
}

/// A failed operation on a transport.
#[derive(Debug, PartialEq, Eq)]
pub struct IoError {
    pub kind: ErrorKind,
    pub message: String,
}

impl IoError {
    /// An error of the given kind, with a description.
    pub fn new(kind: ErrorKind, message: &str) -> (error: IoError)
        ensures
            error.kind == kind,
            error.message@ == message@,
    {
        IoError { kind: kind, message: message.to_owned() }
    }
}

/// Why a message could not be received.
#[derive(Debug, PartialEq, Eq)]
pub enum Error {
    /// The transport failed.
    Io(IoError),
    /// The message head does not fit the buffer.
    TooLarge,
    /// The message head is malformed, as the parser described it.
    Head(String),
}

/// Whether a value is there yet.
#[derive(Debug, PartialEq, Eq)]
pub enum Async<T> {
    Ready(T),
    NotReady,
}

/// The outcome of an operation that may have to wait and may fail.
pub type Poll<T, E> = Result<Async<T>, E>;

/// What `nonblocking` makes of an outcome: an operation that would have had to wait is no
/// failure, it merely moved nothing.
pub open spec fn unblocked(outcome: Result<usize, IoError>) -> Result<Option<usize>, IoError> {
    match outcome {
        Ok(n) => Ok(Some(n)),
        Err(e) => if e.kind == ErrorKind::WouldBlock {
            Ok(None)
        } else {
            Err(e)
        },
    }
}

/// Turns `WouldBlock` into `Ok(None)` and leaves every other outcome as it is.
pub fn nonblocking(outcome: Result<usize, IoError>) -> (res: Result<Option<usize>, IoError>)
    ensures
        res == unblocked(outcome),
{
    match outcome {
        Ok(n) => Ok(Some(n)),
        Err(e) => match e.kind {
            ErrorKind::WouldBlock => Ok(None),
            _ => Err(e),
        },
    }
}

} // verus!
