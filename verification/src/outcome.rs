//! Entity classification and the error taxonomy shared by every
//! operation, together with the uniform mapping to status codes.

use vstd::prelude::*;

verus! {

/// The observed type of whatever currently exists at a canonical path.
/// Computed fresh per operation and never cached: the file system can
/// change between checks.
#[derive(Clone, Copy, PartialEq, Eq, Structural, Debug)]
pub enum EntityKind {
    File,
    Directory,
    Missing,
}

/// Every fallible step of an operation surfaces one of these kinds.
#[derive(Clone, Copy, PartialEq, Eq, Structural, Debug)]
pub enum ErrorKind {
    /// The resolved path escapes the configured root; rejected before
    /// any file-system access.
    Traversal,
    /// The entity, or a parent it needs, is missing.
    NotFound,
    /// The entity exists but is not the type the operation expects.
    WrongKind,
    /// Any other OS-level failure.
    IOFailure,
    /// Reserved: acquisition cannot currently fail, only suspend.
    LockFailure,
}

/// The uniform status mapping used by every operation: recoverable
/// conditions map to 4xx, unexpected OS failures to 5xx.
pub open spec fn spec_status_of(e: ErrorKind) -> u16 {
    match e {
        ErrorKind::Traversal => 400,
        ErrorKind::NotFound => 404,
        ErrorKind::WrongKind => 400,
        ErrorKind::IOFailure => 500,
        ErrorKind::LockFailure => 500,
    }
}

/// Status code for a successful operation.
pub open spec fn spec_success_status() -> u16 {
    200
}

pub fn status_of(e: ErrorKind) -> (s: u16)
    ensures
        s == spec_status_of(e),
{
    match e {
        ErrorKind::Traversal => 400,
        ErrorKind::NotFound => 404,
        ErrorKind::WrongKind => 400,
        ErrorKind::IOFailure => 500,
        ErrorKind::LockFailure => 500,
    }
}

/// What an operation hands back to the transport layer: a status code
/// and a human-readable message, nothing else.
pub struct OperationOutcome {
    pub status: u16,
    pub message: String,
}

impl OperationOutcome {
    /// A successful outcome with the given message.
    pub fn success(message: String) -> (r: OperationOutcome)
        ensures
            r.status == spec_success_status(),
            r.message@ == message@,
    {
        OperationOutcome { status: 200, message }
    }

    /// A failed outcome: the status follows the uniform mapping.
    pub fn failure(kind: ErrorKind, message: String) -> (r: OperationOutcome)
        ensures
            r.status == spec_status_of(kind),
            r.message@ == message@,
    {
        OperationOutcome { status: status_of(kind), message }
    }
}

} // verus!
