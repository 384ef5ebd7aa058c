//! Run one external command per operation: what to spawn, how long to wait,
//! and what each way the process can end means for the caller. Spawning and
//! waiting are a caller's work; the verdict drawn from the outcome is
//! verified here.

use vstd::prelude::*;
use vstd::string::StringExecFns;
use crate::pg_enums::PgProcessType;
use crate::pg_errors::PgEmbedError;

verus! {

/// A command ready to spawn: executable path, arguments, and the optional
/// bound on how long to wait for it.
pub struct PgCommand {
    /// Path of the executable to spawn
    pub exe: String,
    /// Arguments, in order
    pub args: Vec<String>,
    /// Milliseconds to wait before the process is forcibly terminated;
    /// `None` waits without bound
    pub timeout_ms: Option<u64>,
}

/// Every way a spawned command can end, as the caller observed it.
pub enum ProcessOutcome {
    /// The process exited on its own with this status code
    Exited { code: i32 },
    /// The process was ended by a signal and reported no status code
    Signaled,
    /// The process could not be spawned (executable missing, permissions)
    SpawnFailed { e: String },
    /// The configured timeout elapsed and the process was terminated
    TimedOut,
}

/// Whether an outcome counts as success: only a clean exit does.
pub open spec fn spec_outcome_ok(outcome: ProcessOutcome) -> bool {
    outcome matches ProcessOutcome::Exited { code } && code == 0
}

/// The error kind configured for each operation.
pub open spec fn spec_operation_error(process_type: PgProcessType) -> PgEmbedError {
    match process_type {
        PgProcessType::InitDb => PgEmbedError::PgInitFailure,
        PgProcessType::StartDb => PgEmbedError::PgStartFailure,
        PgProcessType::StopDb => PgEmbedError::PgStopFailure,
    }
}

/// Whether `e` is the timeout failure for `process_type`: a wrapped error
/// naming the operation and the elapsed bound.
pub open spec fn spec_is_timeout_error(process_type: PgProcessType, e: PgEmbedError) -> bool {
    e matches PgEmbedError::PgError { source, message } && source@ == "timeout"@ && message@
        == process_type.spec_name() + " command timed out"@
}

/// The verdict each outcome earns for an operation: a clean exit is success;
/// any other exit, and a spawn failure, is the operation's own error kind; a
/// timeout is a timeout failure naming the operation.
pub open spec fn spec_outcome_verdict(
    process_type: PgProcessType,
    outcome: ProcessOutcome,
    r: Result<(), PgEmbedError>,
) -> bool {
    match outcome {
        ProcessOutcome::Exited { code } => if code == 0 {
            r is Ok
        } else {
            r matches Err(e) && e == spec_operation_error(process_type)
        },
        ProcessOutcome::Signaled => r matches Err(e) && e == spec_operation_error(process_type),
        ProcessOutcome::SpawnFailed { e: _ } => r matches Err(e) && e == spec_operation_error(
            process_type,
        ),
        ProcessOutcome::TimedOut => r matches Err(e) && spec_is_timeout_error(process_type, e),
    }
}

impl PgProcessType {
    /// The error kind this operation reports when its command fails.
    pub fn error_type(&self) -> (r: PgEmbedError)
        ensures
            r == spec_operation_error(*self),
    {
        match self {
            PgProcessType::InitDb => PgEmbedError::PgInitFailure,
            PgProcessType::StartDb => PgEmbedError::PgStartFailure,
            PgProcessType::StopDb => PgEmbedError::PgStopFailure,
        }
    }

    /// Wrap a cause and a message from outside the enumerated kinds.
    pub fn wrap_error(&self, error: String, message: String) -> (r: PgEmbedError)
        ensures
            r == (PgEmbedError::PgError { source: error, message: message }),
    {
        PgEmbedError::PgError { source: error, message }
    }
}

/// Draw the verdict for `process_type` from how its command ended.
pub fn outcome_result(process_type: &PgProcessType, outcome: &ProcessOutcome) -> (r: Result<
    (),
    PgEmbedError,
>)
    ensures
        spec_outcome_verdict(*process_type, *outcome, r),
        r is Ok <==> spec_outcome_ok(*outcome),
{
    match outcome {
        ProcessOutcome::Exited { code } => {
            if *code == 0 {
                Ok(())
            } else {
                Err(process_type.error_type())
            }
        },
        ProcessOutcome::Signaled => Err(process_type.error_type()),
        ProcessOutcome::SpawnFailed { e: _ } => Err(process_type.error_type()),
        ProcessOutcome::TimedOut => {
            let mut message = String::from_str(process_type.name());
            message.append(" command timed out");
            Err(PgEmbedError::PgError { source: String::from_str("timeout"), message })
        },
    }
}

} // verus!
