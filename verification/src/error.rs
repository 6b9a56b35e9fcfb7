//! The error that every fallible operation returns.

use vstd::prelude::*;

verus! {

/// The category of an [`Error`].
#[derive(Clone, Copy, Debug, PartialEq, Eq, Structural)]
pub enum ErrorKind {
    /// The path names nothing that exists.
    NotFound,
    /// The operating system refused the access.
    PermissionDenied,
    /// The path has no file name, or the file is already in the state asked
    /// for.
    InvalidInput,
    /// Any other failure: a failed system call, or a path that the system
    /// call's encoding cannot hold.
    Other,
}

/// Why an operation failed.
#[derive(Clone, Copy, Debug, PartialEq, Eq, Structural)]
pub struct Error {
    kind: ErrorKind,
}

impl Error {
    /// The category that this error was made with.
    pub closed spec fn spec_kind(&self) -> ErrorKind {
        self.kind
    }

    /// An error of the given category.
    pub fn new(kind: ErrorKind) -> (e: Error)
        ensures
            e.kind() == kind,
    {
        Error { kind }
    }

    /// The category of this error.
    #[verifier::when_used_as_spec(spec_kind)]
    pub fn kind(&self) -> (k: ErrorKind)
        ensures
            k == self.spec_kind(),
    {
        self.kind
    }
}

} // verus!
