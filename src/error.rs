//! Failure reasons and the status codes that report them at the boundary.
use vstd::prelude::*;

verus! {

/// Why an operation failed.
#[derive(Clone, Debug, PartialEq, Eq)]
pub enum FsError {
    /// A required argument was absent, or its text failed validation.
    InvalidInput(String),
    /// The filesystem reported a failure (missing path, permission, disk).
    Io(String),
    /// The resolved destination of a copy is already present.
    AlreadyExists(String),
    /// A result or error text could not itself be encoded for the caller.
    Encoding,
}

/// Status reported for success.
pub const STATUS_OK: i32 = 0;

/// Status reported for a failure that comes with a message.
pub const STATUS_FAILED: i32 = 1;

/// Status reported for a failure without details.
pub const STATUS_ABORTED: i32 = -1;

impl FsError {
    /// The status code that reports this error when a message can go with it.
    pub open spec fn spec_status(&self) -> i32 {
        match self {
            FsError::Encoding => STATUS_ABORTED,
            _ => STATUS_FAILED,
        }
    }

    /// The message that goes with this error, if any.
    pub open spec fn spec_message(&self) -> Option<Seq<char>> {
        match self {
            FsError::InvalidInput(m) => Some(m@),
            FsError::Io(m) => Some(m@),
            FsError::AlreadyExists(m) => Some(m@),
            FsError::Encoding => None,
        }
    }

    pub fn status(&self) -> (c: i32)
        ensures
            c == self.spec_status(),
    {
        match self {
            FsError::Encoding => STATUS_ABORTED,
            _ => STATUS_FAILED,
        }
    }

    pub fn message(&self) -> (r: Option<String>)
        ensures
            r matches Some(m) ==> self.spec_message() == Some(m@),
            r is None <==> self.spec_message() is None,
    {
        match self {
            FsError::InvalidInput(m) => Some(m.clone()),
            FsError::Io(m) => Some(m.clone()),
            FsError::AlreadyExists(m) => Some(m.clone()),
            FsError::Encoding => None,
        }
    }
}

/// The status of an operation that may report a message on failure: zero on
/// success, otherwise the error's own status.
pub fn status_of<T>(r: &Result<T, FsError>) -> (c: i32)
    ensures
        r is Ok ==> c == STATUS_OK,
        r matches Err(e) ==> c == e.spec_status(),
{
    match r {
        Ok(_) => STATUS_OK,
        Err(e) => e.status(),
    }
}

/// The status of an operation that reports failures without details: zero on
/// success, `STATUS_ABORTED` on any failure.
pub fn generic_status_of<T>(r: &Result<T, FsError>) -> (c: i32)
    ensures
        c == if r is Ok {
            STATUS_OK
        } else {
            STATUS_ABORTED
        },
{
    match r {
        Ok(_) => STATUS_OK,
        Err(_) => STATUS_ABORTED,
    }
}

/// A truth value as the boundary reports it: one for true, zero for false.
pub fn flag_of(b: bool) -> (c: i32)
    ensures
        c == if b {
            1i32
        } else {
            0i32
        },
{
    if b {
        1
    } else {
        0
    }
}

} // verus!
