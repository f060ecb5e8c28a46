use vstd::prelude::*;

verus! {

/// The closed set of failure categories an operation can surface.
///
/// Callers branch on the kind programmatically; the human-readable text
/// travels beside it in [`Error`].
#[derive(Clone, Copy, Debug, PartialEq, Eq, Structural)]
pub enum ErrorKind {
    /// Opening, creating or writing a file failed.
    Io,
    /// The codec could not parse or serialize the data.
    Format,
    /// A recognized sibling format that is not implemented.
    Unsupported,
    /// An argument was rejected, such as an unrecognized file extension.
    InvalidArgument,
    /// An instance reference whose identity is no longer in its tree.
    DestroyedReference,
}

/// A failure local to one operation: a kind to branch on and a message to
/// show. No error is fatal to the caller; each operation can be retried.
#[derive(Debug)]
pub struct Error {
    pub kind: ErrorKind,
    pub message: String,
}

impl Error {
    pub fn new(kind: ErrorKind, message: String) -> (e: Error)
        ensures
            e.kind == kind,
            e.message@ == message@,
    {
        Error { kind, message }
    }

    pub fn io(message: String) -> (e: Error)
        ensures
            e.kind == ErrorKind::Io,
            e.message@ == message@,
    {
        Error { kind: ErrorKind::Io, message }
    }

    pub fn format(message: String) -> (e: Error)
        ensures
            e.kind == ErrorKind::Format,
            e.message@ == message@,
    {
        Error { kind: ErrorKind::Format, message }
    }

    pub fn unsupported(message: String) -> (e: Error)
        ensures
            e.kind == ErrorKind::Unsupported,
            e.message@ == message@,
    {
        Error { kind: ErrorKind::Unsupported, message }
    }

    pub fn invalid_argument(message: String) -> (e: Error)
        ensures
            e.kind == ErrorKind::InvalidArgument,
            e.message@ == message@,
    {
        Error { kind: ErrorKind::InvalidArgument, message }
    }

    pub fn destroyed_reference(message: String) -> (e: Error)
        ensures
            e.kind == ErrorKind::DestroyedReference,
            e.message@ == message@,
    {
        Error { kind: ErrorKind::DestroyedReference, message }
    }

    pub fn kind(&self) -> (k: ErrorKind)
        ensures
            k == self.kind,
    {
        self.kind
    }

    pub fn message(&self) -> (m: &String)
        ensures
            m@ == self.message@,
    {
        &self.message
    }
}

} // verus!
