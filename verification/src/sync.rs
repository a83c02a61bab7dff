//! The loop that keeps the working copy in step with its remote.
//!
//! The loop has a single state, waiting for the next interval, and never
//! ends. The caller owns the timer and the subprocess: it reports each
//! event here and does what it is told. A pull that fails is reported and
//! forgotten; the next interval brings the next attempt.

use vstd::prelude::*;
use crate::command::{pull_command, pull_invocation, Invocation, VcsCommand};
use crate::config::Config;
use crate::process::{completion, process_result, ProcessOutcome, SyncError};

verus! {

/// Seconds between two attempts to pull.
pub const SYNC_INTERVAL_SECONDS: u64 = 300;

/// Something the caller of the loop observed.
#[derive(Debug, Clone, PartialEq, Eq)]
pub enum SyncEvent {
    /// The loop has just been started.
    Started,
    /// The interval has elapsed.
    IntervalElapsed,
    /// The pull that was asked for has ended.
    PullFinished(ProcessOutcome),
}

/// What there is to say about the attempt that precedes a wait.
#[derive(Debug, Clone, PartialEq, Eq)]
pub enum PullReport {
    /// No pull was made: version control is disabled.
    Skipped,
    /// The working copy was checked for updates.
    Succeeded,
    /// The pull failed for this reason.
    Failed(SyncError),
}

/// What the caller of the loop is to do next.
#[derive(Debug, Clone, PartialEq, Eq)]
pub enum SyncAction {
    /// Run this pull and report how it ended.
    Pull(VcsCommand),
    /// Log the report, then wait for this many seconds and report that the
    /// interval has elapsed.
    Wait { seconds: u64, report: PullReport },
}

/// Mathematical content of a [`SyncAction`].
pub enum SyncPlan {
    Pull(Invocation),
    Wait { seconds: u64, report: PullReport },
}

impl View for SyncAction {
    type V = SyncPlan;

    open spec fn view(&self) -> SyncPlan {
        match *self {
            SyncAction::Pull(command) => SyncPlan::Pull(command@),
            SyncAction::Wait { seconds, report } => SyncPlan::Wait { seconds, report },
        }
    }
}

/// The report on a pull that ended with `outcome`.
pub open spec fn report_of(outcome: ProcessOutcome) -> PullReport {
    match completion(outcome) {
        Ok(()) => PullReport::Succeeded,
        Err(error) => PullReport::Failed(error),
    }
}

/// The action that follows an event.
///
/// At the start and whenever the interval has elapsed, the working copy is
/// pulled; without a remote there is nothing to pull, and the loop just
/// waits again. When a pull has ended, whatever its outcome, the loop waits
/// for the next interval.
pub open spec fn next_sync_plan(config: &Config, event: SyncEvent) -> SyncPlan {
    match event {
        SyncEvent::PullFinished(outcome) => SyncPlan::Wait {
            seconds: SYNC_INTERVAL_SECONDS,
            report: report_of(outcome),
        },
        _ => if config.git_enabled() {
            SyncPlan::Pull(pull_invocation(config.folder_path@))
        } else {
            SyncPlan::Wait { seconds: SYNC_INTERVAL_SECONDS, report: PullReport::Skipped }
        },
    }
}

/// Decides what the loop does after an event.
pub fn sync_step(config: &Config, event: SyncEvent) -> (action: SyncAction)
    ensures
        action@ == next_sync_plan(config, event),
{
    match event {
        SyncEvent::PullFinished(outcome) => {
            let report = match process_result(outcome) {
                Ok(()) => PullReport::Succeeded,
                Err(error) => PullReport::Failed(error),
            };
            SyncAction::Wait { seconds: SYNC_INTERVAL_SECONDS, report }
        },
        _ => match pull_command(config) {
            Some(command) => SyncAction::Pull(command),
            None => SyncAction::Wait {
                seconds: SYNC_INTERVAL_SECONDS,
                report: PullReport::Skipped,
            },
        },
    }
}

/// The loop outlives every failure: however a pull ended, the loop waits one
/// interval, and when that has elapsed it pulls again.
pub proof fn pull_follows_every_outcome(config: &Config, outcome: ProcessOutcome)
    requires
        config.git_enabled(),
    ensures
        next_sync_plan(config, SyncEvent::PullFinished(outcome)) == (SyncPlan::Wait {
            seconds: SYNC_INTERVAL_SECONDS,
            report: report_of(outcome),
        }),
        next_sync_plan(config, SyncEvent::IntervalElapsed) == SyncPlan::Pull(
            pull_invocation(config.folder_path@),
        ),
{
}

/// Without a remote address the loop never asks for a command.
pub proof fn disabled_sync_runs_nothing(config: &Config, event: SyncEvent)
    requires
        !config.git_enabled(),
    ensures
        next_sync_plan(config, event) is Wait,
{
}

} // verus!
