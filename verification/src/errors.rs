//! Failures of an extraction call.

use vstd::prelude::*;

verus! {

/// Why a call failed. Every failure is reported by the call that met it;
/// nothing is retried and no partial result is handed out.
#[derive(Debug, Clone, PartialEq, Eq)]
pub enum Error {
    /// The embedded runtime could not be initialised.
    RuntimeStartup(String),
    /// The calling thread could not register with the runtime.
    Attach(String),
    /// A local value could not be turned into a remote argument.
    Marshal(String),
    /// The engine raised an exception; its message and, where known, its
    /// type are kept as text.
    Remote { exception: Option<String>, message: String },
    /// The remote call returned, but a required part of its result is missing.
    Malformed(String),
    /// A read from a remote stream failed.
    StreamIo(String),
}

/// The result of an extraction call.
pub type ExtractResult<T> = Result<T, Error>;

/// The six kinds of failure.
#[derive(Debug, Clone, Copy, PartialEq, Eq, Hash, Structural)]
pub enum ErrorKind {
    RuntimeStartup,
    Attach,
    Marshal,
    Remote,
    Malformed,
    StreamIo,
}

impl Error {
    /// The kind of the failure.
    pub open spec fn spec_kind(self) -> ErrorKind {
        match self {
            Error::RuntimeStartup(_) => ErrorKind::RuntimeStartup,
            Error::Attach(_) => ErrorKind::Attach,
            Error::Marshal(_) => ErrorKind::Marshal,
            Error::Remote { .. } => ErrorKind::Remote,
            Error::Malformed(_) => ErrorKind::Malformed,
            Error::StreamIo(_) => ErrorKind::StreamIo,
        }
    }

    /// The text that came with the failure.
    pub open spec fn spec_message(self) -> Seq<char> {
        match self {
            Error::RuntimeStartup(message) => message@,
            Error::Attach(message) => message@,
            Error::Marshal(message) => message@,
            Error::Remote { message, .. } => message@,
            Error::Malformed(message) => message@,
            Error::StreamIo(message) => message@,
        }
    }

    /// Returns the kind of the failure.
    pub fn kind(&self) -> (kind: ErrorKind)
        ensures
            kind == self.spec_kind(),
    {
        match self {
            Error::RuntimeStartup(_) => ErrorKind::RuntimeStartup,
            Error::Attach(_) => ErrorKind::Attach,
            Error::Marshal(_) => ErrorKind::Marshal,
            Error::Remote { .. } => ErrorKind::Remote,
            Error::Malformed(_) => ErrorKind::Malformed,
            Error::StreamIo(_) => ErrorKind::StreamIo,
        }
    }

    /// Returns the text that came with the failure.
    pub fn message(&self) -> (message: &String)
        ensures
            message@ == self.spec_message(),
    {
        match self {
            Error::RuntimeStartup(message) => message,
            Error::Attach(message) => message,
            Error::Marshal(message) => message,
            Error::Remote { message, .. } => message,
            Error::Malformed(message) => message,
            Error::StreamIo(message) => message,
        }
    }
}

} // verus!
