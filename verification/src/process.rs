//! What a spawned process reported, and how that is judged.

use vstd::prelude::*;

verus! {

/// How one invocation of an external command ended, as its caller saw it.
#[derive(Debug, Clone, PartialEq, Eq)]
pub enum ProcessOutcome {
    /// The process could not be started; the text is the underlying cause.
    LaunchFailed(String),
    /// The process started, but waiting for its exit failed.
    WaitFailed(String),
    /// The process ran to its end. The exit code is absent when the process
    /// was terminated without one, for instance by a signal.
    Exited(Option<i32>),
}

/// Why a clone or a pull did not succeed.
#[derive(Debug, Clone, PartialEq, Eq)]
pub enum SyncError {
    /// The command failed to launch.
    Launch(String),
    /// Waiting for the command's exit failed.
    Wait(String),
    /// The command exited with this non-zero code.
    ExitCode(i32),
    /// The command was terminated without an exit code.
    Terminated,
}

/// An exit status counts as success exactly when its code is zero.
pub open spec fn exit_success(code: Option<i32>) -> bool {
    code == Some(0i32)
}

/// The judgement of a finished clone or pull: success for exit code zero,
/// otherwise the error that carries the exit code or the underlying cause.
pub open spec fn completion(outcome: ProcessOutcome) -> Result<(), SyncError> {
    match outcome {
        ProcessOutcome::LaunchFailed(cause) => Err(SyncError::Launch(cause)),
        ProcessOutcome::WaitFailed(cause) => Err(SyncError::Wait(cause)),
        ProcessOutcome::Exited(Some(code)) => if code == 0 {
            Ok(())
        } else {
            Err(SyncError::ExitCode(code))
        },
        ProcessOutcome::Exited(None) => Err(SyncError::Terminated),
    }
}

/// Tells whether an exit code means success.
pub fn exited_successfully(code: Option<i32>) -> (ok: bool)
    ensures
        ok == exit_success(code),
{
    match code {
        Some(value) => value == 0,
        None => false,
    }
}

/// Judges a finished clone or pull.
pub fn process_result(outcome: ProcessOutcome) -> (result: Result<(), SyncError>)
    ensures
        result == completion(outcome),
{
    match outcome {
        ProcessOutcome::LaunchFailed(cause) => Err(SyncError::Launch(cause)),
        ProcessOutcome::WaitFailed(cause) => Err(SyncError::Wait(cause)),
        ProcessOutcome::Exited(code) => {
            if exited_successfully(code) {
                Ok(())
            } else {
                match code {
                    Some(value) => Err(SyncError::ExitCode(value)),
                    None => Err(SyncError::Terminated),
                }
            }
        },
    }
}

} // verus!
