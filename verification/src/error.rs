//! The conditions that end a run, and the exit status that each maps to.
use vstd::prelude::*;

verus! {

/// Exit status of a run that ended without a fatal condition.
pub const EXIT_OK: i32 = 0;

/// Exit status after an overflow or a failed sanity check.
pub const EXIT_REJECTED: i32 = 1;

/// Exit status when no attempt brought a usable reply.
pub const EXIT_QUERY_FAILED: i32 = 2;

/// Exit status when the clock could not be written.
pub const EXIT_CLOCK_FAILED: i32 = 10;

/// Why the clock could not be written.
#[derive(Clone, Copy, Debug, PartialEq, Eq, Structural)]
pub enum ClockError {
    /// The caller may not set the clock.
    PermissionDenied,
    /// The system call failed with this error number.
    SyscallFailed(i32),
    /// The platform has no way to set the clock.
    Unsupported,
}

/// A fatal condition of a run.
#[derive(Clone, Copy, Debug, PartialEq, Eq, Structural)]
pub enum SyncError {
    /// The server name resolved to no address.
    ResolutionFailed,
    /// Every attempt on every address failed.
    QueryExhausted,
    /// An intermediate value did not fit the working integer width.
    ArithmeticOverflow,
    /// The round-trip delay is negative or above the ceiling.
    DelayOutOfRange,
    /// The remote calendar year is outside the plausible range.
    YearOutOfRange,
    /// The clock write was attempted and failed.
    ClockWriteFailed(ClockError),
}

/// The error of a clock write that the system refused: a refusal for want
/// of permission is `PermissionDenied`, and any other carries the system's
/// error number.
pub fn clock_error_of(permission_denied: bool, code: i32) -> (e: ClockError)
    ensures
        e == if permission_denied {
            ClockError::PermissionDenied
        } else {
            ClockError::SyscallFailed(code)
        },
{
    if permission_denied {
        ClockError::PermissionDenied
    } else {
        ClockError::SyscallFailed(code)
    }
}

impl SyncError {
    /// The exit status of each fatal condition: one for a failed query, one
    /// for an overflow or a failed sanity check, one for a failed clock write.
    pub open spec fn status(self) -> i32 {
        match self {
            SyncError::ResolutionFailed => EXIT_QUERY_FAILED,
            SyncError::QueryExhausted => EXIT_QUERY_FAILED,
            SyncError::ArithmeticOverflow => EXIT_REJECTED,
            SyncError::DelayOutOfRange => EXIT_REJECTED,
            SyncError::YearOutOfRange => EXIT_REJECTED,
            SyncError::ClockWriteFailed(_) => EXIT_CLOCK_FAILED,
        }
    }

    /// The process exit status for this condition.
    pub fn exit_status(&self) -> (code: i32)
        ensures
            code == self.status(),
            code != EXIT_OK,
    {
        match self {
            SyncError::ResolutionFailed => EXIT_QUERY_FAILED,
            SyncError::QueryExhausted => EXIT_QUERY_FAILED,
            SyncError::ArithmeticOverflow => EXIT_REJECTED,
            SyncError::DelayOutOfRange => EXIT_REJECTED,
            SyncError::YearOutOfRange => EXIT_REJECTED,
            SyncError::ClockWriteFailed(_) => EXIT_CLOCK_FAILED,
        }
    }
}

} // verus!
