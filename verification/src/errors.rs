//! The closed failure taxonomy of discovery.
//!
//! An [`Error`] carries a kind, a human-readable message, and a flag that is
//! true exactly when the failure arose while the lock-file strategy was being
//! attempted; callers use the flag to decide whether retrying under the other
//! strategy is worthwhile.

use vstd::prelude::*;

verus! {

/// The platform I/O failure classes that discovery can surface.
///
/// The library itself only ever produces [`IoKind::InvalidData`] (for a lock
/// file that is not UTF-8); the other variants exist so that a caller doing
/// the actual file read can report its platform error through the same
/// taxonomy.
#[derive(Clone, Copy, Debug, PartialEq, Eq, Structural)]
pub enum IoKind {
    NotFound,
    PermissionDenied,
    InvalidData,
    UnexpectedEof,
    Interrupted,
    TimedOut,
    Other,
}

/// What caused the error.
#[derive(Clone, Copy, Debug, PartialEq, Eq, Structural)]
pub enum ErrorKind {
    /// An underlying platform I/O failure.
    Io(IoKind),
    /// The executable path did not lead to a lock file.
    LockFileNotFound,
    /// No auth token was found by the chosen strategy.
    AuthTokenNotFound,
    /// No port was found, or the port string did not parse.
    PortNotFound,
    /// Neither the client nor the game process was in the snapshot.
    NotRunning,
}

/// Error pertaining to getting the auth key and endpoint of the client.
#[derive(Clone, Debug)]
pub struct Error {
    kind: ErrorKind,
    message: String,
    lock_file_error: bool,
}

impl Error {
    /// The kind of this error.
    pub closed spec fn spec_kind(&self) -> ErrorKind {
        self.kind
    }

    /// The human-readable message of this error.
    pub closed spec fn spec_message(&self) -> Seq<char> {
        self.message@
    }

    /// Whether the failure occurred while the lock-file strategy ran.
    pub closed spec fn spec_lock_file_error(&self) -> bool {
        self.lock_file_error
    }

    /// A new error that is not marked as a lock-file error.
    pub fn new(kind: ErrorKind, message: &str) -> (e: Error)
        ensures
            e.spec_kind() == kind,
            e.spec_message() == message@,
            !e.spec_lock_file_error(),
    {
        Error { kind, message: String::from_str(message), lock_file_error: false }
    }

    /// A new error with an owned message, not marked as a lock-file error.
    pub fn new_string(kind: ErrorKind, message: String) -> (e: Error)
        ensures
            e.spec_kind() == kind,
            e.spec_message() == message@,
            !e.spec_lock_file_error(),
    {
        Error { kind, message, lock_file_error: false }
    }

    /// The same error with the lock-file flag replaced.
    pub fn set_lockfile_error(self, lock_file_error: bool) -> (e: Error)
        ensures
            e.spec_kind() == self.spec_kind(),
            e.spec_message() == self.spec_message(),
            e.spec_lock_file_error() == lock_file_error,
    {
        Error { lock_file_error, ..self }
    }

    /// True iff the failure occurred while attempting the lock-file strategy.
    #[must_use]
    pub fn is_lockfile_error(&self) -> (b: bool)
        ensures
            b == self.spec_lock_file_error(),
    {
        self.lock_file_error
    }

    /// Returns true if it's an IO error, false otherwise.
    #[must_use]
    pub fn is_io_error(&self) -> (b: bool)
        ensures
            b == (self.spec_kind() is Io),
    {
        matches!(self.kind, ErrorKind::Io(_))
    }

    /// The kind of the error.
    #[must_use]
    pub fn kind(&self) -> (k: ErrorKind)
        ensures
            k == self.spec_kind(),
    {
        self.kind
    }

    /// The human-readable message.
    #[must_use]
    pub fn reason(&self) -> (r: &str)
        ensures
            r@ == self.spec_message(),
    {
        self.message.as_str()
    }
}

} // verus!
