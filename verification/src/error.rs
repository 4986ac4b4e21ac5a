//! The errors that the reporting pipeline and context extraction return.

use vstd::prelude::*;

verus! {

/// What went wrong.
#[derive(Debug, Clone, Copy, PartialEq, Eq, Structural)]
pub enum ErrorKind {
    /// A carrier holds no span context, or one that cannot be parsed.
    MalformedContext,
    /// A batch could not be turned into wire bytes.
    EncodingFailed,
    /// A datagram could not be handed to the transport.
    TransportFailed,
}

/// An error of this crate: its kind, and nothing else.
#[derive(Debug, Clone, Copy, PartialEq, Eq, Structural)]
pub struct TraceError {
    pub kind: ErrorKind,
}

/// The text that describes an error of the given kind.
pub open spec fn kind_text(kind: ErrorKind) -> Seq<char> {
    match kind {
        ErrorKind::MalformedContext => "malformed span context"@,
        ErrorKind::EncodingFailed => "encoding failed"@,
        ErrorKind::TransportFailed => "transport failed"@,
    }
}

impl TraceError {
    /// An error of the given kind.
    pub fn new(kind: ErrorKind) -> (r: TraceError)
        ensures
            r.kind == kind,
    {
        TraceError { kind }
    }

    /// The kind of this error.
    pub fn kind(&self) -> (r: ErrorKind)
        ensures
            r == self.kind,
    {
        self.kind
    }

    /// A short description of this error.
    pub fn message(&self) -> (r: String)
        ensures
            r@ == kind_text(self.kind),
    {
        match self.kind {
            ErrorKind::MalformedContext => "malformed span context".to_owned(),
            ErrorKind::EncodingFailed => "encoding failed".to_owned(),
            ErrorKind::TransportFailed => "transport failed".to_owned(),
        }
    }
}

} // verus!
