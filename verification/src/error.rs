//! The canonical error taxonomy for lock acquisition.
//!
//! Every acquisition method reports failures through [`Error`], which carries
//! the raw OS error number together with the canonical [`ErrorKind`] derived
//! from it. The derivation is the one piece of business logic shared by every
//! acquisition path: the platform's "resource temporarily unavailable"
//! condition becomes [`ErrorKind::WouldBlock`], an interrupted blocking call
//! becomes [`ErrorKind::Interrupted`], and everything else passes through as
//! [`ErrorKind::Other`] with the original error number kept for diagnostics.

use vstd::prelude::*;

verus! {

/// The platform's error number for "resource temporarily unavailable"
/// (`EAGAIN`, equal to `EWOULDBLOCK` on Linux): a non-blocking lock request
/// found the lock held by someone else.
pub const ERRNO_WOULDBLOCK: i32 = 11;

/// The platform's error number for "interrupted system call" (`EINTR` on
/// Linux): a blocking call was interrupted by a signal handler.
pub const ERRNO_INTERRUPTED: i32 = 4;

/// Error categories.
///
/// This list is intended to grow over time and it is not recommended to
/// exhaustively match against it. It is used with the [`Error`] struct.
#[derive(Clone, Copy, Debug, PartialEq, Eq, Structural)]
#[non_exhaustive]
pub enum ErrorKind {
    /// The lock is already held and the non-blocking call refused to wait.
    WouldBlock,
    /// A blocking call was interrupted before the lock could be acquired.
    Interrupted,
    /// Any error not part of this list.
    Other,
}

/// The canonical kind for a raw OS error number.
pub open spec fn kind_of_code(code: i32) -> ErrorKind {
    if code == ERRNO_WOULDBLOCK {
        ErrorKind::WouldBlock
    } else if code == ERRNO_INTERRUPTED {
        ErrorKind::Interrupted
    } else {
        ErrorKind::Other
    }
}

impl ErrorKind {
    /// The diagnostic message for this category.
    pub open spec fn spec_message(self) -> Seq<char> {
        match self {
            ErrorKind::WouldBlock => "The fd is locked"@,
            ErrorKind::Interrupted => "The operation was interrupted"@,
            ErrorKind::Other => "Generic error"@,
        }
    }

    /// The diagnostic message for this category.
    pub fn message(&self) -> (r: &'static str)
        ensures
            r@ == self.spec_message(),
    {
        match self {
            ErrorKind::WouldBlock => "The fd is locked",
            ErrorKind::Interrupted => "The operation was interrupted",
            ErrorKind::Other => "Generic error",
        }
    }
}

/// A specialized `Error` type for advisory lock operations.
#[derive(Clone, Copy, Debug, PartialEq, Eq, Structural)]
pub struct Error {
    /// The canonical category of the failure.
    pub kind: ErrorKind,
    /// The raw OS error number that caused the failure, or `0` when the
    /// error was not produced by the OS.
    pub code: i32,
}

/// The error that reports the raw OS error number `code`.
pub open spec fn error_of_code(code: i32) -> Error {
    Error { kind: kind_of_code(code), code }
}

impl Error {
    /// Whether this error faithfully reports some OS failure: a positive
    /// error number, with the kind the canonical mapping assigns to it.
    pub open spec fn reports_os_failure(&self) -> bool {
        &&& self.code > 0
        &&& *self == error_of_code(self.code)
    }

    /// Access the [`ErrorKind`] member.
    pub fn kind(&self) -> (r: &ErrorKind)
        ensures
            *r == self.kind,
    {
        &self.kind
    }

    /// Build the error for a raw OS error number, applying the canonical
    /// mapping from error numbers to [`ErrorKind`].
    pub fn from_raw_os_error(code: i32) -> (e: Error)
        ensures
            e == error_of_code(code),
    {
        if code == ERRNO_WOULDBLOCK {
            Error { kind: ErrorKind::WouldBlock, code }
        } else if code == ERRNO_INTERRUPTED {
            Error { kind: ErrorKind::Interrupted, code }
        } else {
            Error { kind: ErrorKind::Other, code }
        }
    }

    /// The diagnostic message for this error's category.
    pub fn message(&self) -> (r: &'static str)
        ensures
            r@ == self.kind.spec_message(),
    {
        self.kind.message()
    }
}

impl From<ErrorKind> for Error {
    /// Build the error for a canonical kind alone, without an OS error
    /// number.
    fn from(kind: ErrorKind) -> (e: Error) {
        Error { kind, code: 0 }
    }
}

impl vstd::std_specs::convert::FromSpecImpl<ErrorKind> for Error {
    open spec fn obeys_from_spec() -> bool {
        true
    }

    open spec fn from_spec(kind: ErrorKind) -> Error {
        Error { kind, code: 0 }
    }
}

/// The canonical mapping lets a caller distinguish "lock busy" from every
/// other failure: an error built from a raw OS error number reports
/// [`ErrorKind::WouldBlock`] exactly when that number is the platform's
/// would-block value, [`ErrorKind::Interrupted`] exactly when it is the
/// platform's interrupted value, and [`ErrorKind::Other`] otherwise.
pub proof fn lemma_kind_classification(code: i32)
    ensures
        error_of_code(code).kind == ErrorKind::WouldBlock <==> code == ERRNO_WOULDBLOCK,
        error_of_code(code).kind == ErrorKind::Interrupted <==> code == ERRNO_INTERRUPTED,
        error_of_code(code).kind == ErrorKind::Other <==> code != ERRNO_WOULDBLOCK
            && code != ERRNO_INTERRUPTED,
{
}

} // verus!
