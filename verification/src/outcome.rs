//! Classifying how a run of the event loop ended, and the process exit
//! code owed for each ending.
//!
//! The loop may run exactly once per process. The fatal endings are
//! distinguished by small positive exit codes, one per failure category;
//! a normal ending (every window closed) exits with zero.

use vstd::prelude::*;

verus! {

/// Exit code for an error reported by the OS while driving the loop.
pub const OS_ERROR_CODE: i32 = 1;

/// Exit code for an operation the windowing backend does not support.
pub const OP_NOT_SUPPORTED_CODE: i32 = 2;

/// Exit code for an attempt to run the event loop a second time in one
/// process; loop recreation is disallowed.
pub const EVENT_LOOP_ERROR_CODE: i32 = 3;

/// How a run of the event loop ended.
#[derive(Clone, Copy, PartialEq, Eq, Structural, Debug)]
pub enum RunOutcome {
    /// The loop exited normally: every window was closed.
    Completed,
    /// The windowing backend reported an unsupported operation.
    NotSupported,
    /// The OS reported an error.
    OsError,
    /// A second run of the event loop was attempted in this process.
    RecreationAttempt,
    /// The loop exited with an otherwise-unclassified nonzero code.
    ExitFailure(i32),
}

/// The process exit code owed for each way the loop can end: zero for a
/// normal ending, a distinct small positive code per failure category,
/// and an unclassified failure's own code unchanged.
pub open spec fn spec_exit_code(outcome: RunOutcome) -> i32 {
    match outcome {
        RunOutcome::Completed => 0,
        RunOutcome::NotSupported => OP_NOT_SUPPORTED_CODE,
        RunOutcome::OsError => OS_ERROR_CODE,
        RunOutcome::RecreationAttempt => EVENT_LOOP_ERROR_CODE,
        RunOutcome::ExitFailure(code) => code,
    }
}

/// Maps the ending of a run to the exit code the process terminates with.
pub fn exit_code(outcome: RunOutcome) -> (code: i32)
    ensures
        code == spec_exit_code(outcome),
{
    match outcome {
        RunOutcome::Completed => 0,
        RunOutcome::NotSupported => OP_NOT_SUPPORTED_CODE,
        RunOutcome::OsError => OS_ERROR_CODE,
        RunOutcome::RecreationAttempt => EVENT_LOOP_ERROR_CODE,
        RunOutcome::ExitFailure(code) => code,
    }
}

} // verus!
