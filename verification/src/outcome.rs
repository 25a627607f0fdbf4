//! What the kernel answers, and the three ways a call can end.

use vstd::prelude::*;

verus! {

/// What the kernel handed back for one priority call: the call's return value
/// and the error slot as it stood right after the call.
#[derive(Debug, Clone, Copy, PartialEq, Eq, Structural)]
pub struct Reply {
    /// The integer that the call returned.
    pub result: i32,
    /// The thread's error slot, read immediately after the call.
    pub error_code: i32,
}

/// A recoverable end of a call: an ordinary fact about the system.
#[derive(Debug, Clone, Copy, PartialEq, Eq, Structural)]
pub enum PriorityError {
    /// No process, process group or user has the identifier that was given.
    NotFound,
    /// The caller may not change the priority of that target, or not that far.
    PermissionDenied,
}

/// An unrecoverable end of a call: a defect in the caller or a kernel that
/// behaves as no supported platform does. A fault is never a [`PriorityError`].
#[derive(Debug, Clone, Copy, PartialEq, Eq, Structural)]
pub enum Fault {
    /// The kernel rejected the pairing of target kind and identifier.
    InvalidArgument,
    /// The kernel reported an error code that this call is not known to give.
    UnexpectedErrno(i32),
    /// The kernel reported a background state other than 0 and 1.
    UnexpectedPriority(i8),
}

/// How a completed call ends. The inner `Result` is the typed channel that
/// callers handle; the outer `Err` carries a [`Fault`] and is kept apart from it.
pub type Checked<T> = Result<Result<T, PriorityError>, Fault>;

} // verus!
