//! The error type shared by every fallible operation of the crate.

use vstd::prelude::*;

verus! {

/// Why an operation failed. Every variant carries a human-readable message.
#[derive(Debug, Clone)]
pub enum Error {
    /// An argument handed to the library violates a documented rule.
    InvalidParameter(String),
    /// The remote API answered with a failure status or an application-level
    /// error code; the message is the remote's own.
    InternalServer(String),
    /// The network exchange itself failed.
    Transport(String),
    /// A reply, or a piece of encoded data, could not be decoded.
    Decode(String),
}

/// The classes of failure, without their messages.
#[derive(Debug, Clone, Copy, PartialEq, Eq, Structural)]
pub enum ErrorKind {
    InvalidParameter,
    InternalServer,
    Transport,
    Decode,
}

impl Error {
    /// The class of this failure.
    pub open spec fn spec_kind(&self) -> ErrorKind {
        match self {
            Error::InvalidParameter(_) => ErrorKind::InvalidParameter,
            Error::InternalServer(_) => ErrorKind::InternalServer,
            Error::Transport(_) => ErrorKind::Transport,
            Error::Decode(_) => ErrorKind::Decode,
        }
    }

    /// The message carried by this failure, as a sequence of characters.
    pub open spec fn spec_message(&self) -> Seq<char> {
        match self {
            Error::InvalidParameter(m) => m@,
            Error::InternalServer(m) => m@,
            Error::Transport(m) => m@,
            Error::Decode(m) => m@,
        }
    }

    /// The class of this failure.
    pub fn kind(&self) -> (k: ErrorKind)
        ensures
            k == self.spec_kind(),
    {
        match self {
            Error::InvalidParameter(_) => ErrorKind::InvalidParameter,
            Error::InternalServer(_) => ErrorKind::InternalServer,
            Error::Transport(_) => ErrorKind::Transport,
            Error::Decode(_) => ErrorKind::Decode,
        }
    }

    /// A copy of this failure, with the same class and message.
    pub fn duplicate(&self) -> (copy: Error)
        ensures
            copy@ == self@,
    {
        match self {
            Error::InvalidParameter(m) => Error::InvalidParameter(m.clone()),
            Error::InternalServer(m) => Error::InternalServer(m.clone()),
            Error::Transport(m) => Error::Transport(m.clone()),
            Error::Decode(m) => Error::Decode(m.clone()),
        }
    }

    /// The message carried by this failure.
    pub fn message(&self) -> (m: String)
        ensures
            m@ == self.spec_message(),
    {
        match self {
            Error::InvalidParameter(m) => m.clone(),
            Error::InternalServer(m) => m.clone(),
            Error::Transport(m) => m.clone(),
            Error::Decode(m) => m.clone(),
        }
    }
}

impl View for Error {
    type V = (ErrorKind, Seq<char>);

    open spec fn view(&self) -> (ErrorKind, Seq<char>) {
        (self.spec_kind(), self.spec_message())
    }
}

} // verus!
