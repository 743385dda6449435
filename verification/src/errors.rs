//! Failures of a streaming session.

use vstd::prelude::*;
use vstd::string::StringExecFns;

verus! {

/// What went wrong. Every kind ends the loop invocation that met it.
#[derive(Clone, Copy, Debug, PartialEq, Eq, Structural)]
pub enum ErrorKind {
    /// The endpoint is not a well-formed address.
    UrlError,
    /// The transport could not be connected.
    HandshakeError,
    /// An operation needed a connection handle and found none.
    NotConnectedError,
    /// A text frame did not hold valid JSON.
    DecodeError,
    /// The caller's handler reported a failure.
    HandlerError,
    /// The remote side closed the connection.
    PeerCloseError,
    /// Reading from or writing to the transport failed.
    TransportError,
    /// The loop ended because the caller cleared the running flag.
    StoppedByCaller,
}

/// A failure, by kind and message.
#[derive(Clone, Debug)]
pub struct Error {
    pub kind: ErrorKind,
    pub message: String,
}

/// True when `out` is a failure of the given kind and message.
pub open spec fn fails<T>(out: Result<T, Error>, kind: ErrorKind, message: Seq<char>) -> bool {
    out matches Err(e) && e.is(kind, message)
}

impl Error {
    /// True when this failure has the given kind and message.
    pub open spec fn is(self, kind: ErrorKind, message: Seq<char>) -> bool {
        self.kind == kind && self.message@ == message
    }

    /// A failure of the given kind that carries `message` as it stands.
    pub fn new(kind: ErrorKind, message: &str) -> (e: Error)
        ensures
            e.is(kind, message@),
    {
        Error { kind, message: String::from_str(message) }
    }

    /// A failure of the given kind whose message is `prefix` followed by `detail`.
    pub fn with_detail(kind: ErrorKind, prefix: &str, detail: &str) -> (e: Error)
        ensures
            e.is(kind, prefix@ + detail@),
    {
        Error { kind, message: String::from_str(prefix).concat(detail) }
    }

    /// The message of this failure.
    pub fn to_string(&self) -> (text: String)
        ensures
            text@ == self.message@,
    {
        self.message.clone()
    }
}

} // verus!
