//! The best-known creation time of a file.
//!
//! With version control enabled the time comes from the file's history, and
//! from nowhere else. With version control disabled it is the change time
//! that the filesystem records. Resolution that fails concerns one file
//! only: the caller leaves that file out and goes on.

use vstd::prelude::*;
use crate::command::{history_command, history_invocation, Invocation, VcsCommand};
use crate::config::Config;
use crate::history::{history_result, history_timestamp, HistoryOutcome, QueryError};

verus! {

/// Why no creation time could be found for a file.
#[derive(Debug, Clone, PartialEq, Eq)]
pub enum ResolveError {
    /// Reading the filesystem metadata failed; the text is the cause.
    Metadata(String),
    /// The file does not lie under the working copy.
    OutsideWorkingCopy,
    /// The history query failed.
    Query(QueryError),
}

/// What `std::path::Path::strip_prefix` makes of a path and a base: the
/// remainder of the path below the base, or nothing when the path does not
/// start with the base. The two are compared component by component, in the
/// path syntax of the platform the library is built for.
pub uninterp spec fn path_below(path: Seq<char>, base: Seq<char>) -> Option<Seq<char>>;

/// Computes a path relative to a base with `std::path::Path::strip_prefix`.
///
/// Trusted: the call reads neither the disk nor the environment, so its
/// result is a function of the two texts alone, which [`path_below`] names.
/// Both inputs are Unicode, so the remainder is too, and turning it back
/// into text loses nothing.
#[verifier::external_body]
fn strip_prefix(path: &str, base: &str) -> (rest: Option<String>)
    ensures
        match rest {
            Some(r) => path_below(path@, base@) == Some(r@),
            None => path_below(path@, base@) is None,
        },
{
    match std::path::Path::new(path).strip_prefix(std::path::Path::new(base)) {
        Ok(rest) => Some(rest.to_string_lossy().into_owned()),
        Err(_) => None,
    }
}

/// The one thing the caller has to do to learn a file's creation time.
#[derive(Debug, Clone, PartialEq, Eq)]
pub enum ResolveStep {
    /// Read the change time of the file from the filesystem metadata.
    ReadChangeTime,
    /// Run this history query and collect its output.
    QueryHistory(VcsCommand),
    /// Nothing: resolution has failed already.
    Fail(ResolveError),
}

/// What the caller observed when it did what it was asked for.
#[derive(Debug, Clone, PartialEq, Eq)]
pub enum Observation {
    /// The change time that the metadata records, in seconds since the
    /// epoch.
    ChangeTime(i64),
    /// The metadata could not be read; the text is the cause.
    MetadataUnreadable(String),
    /// What the history query reported.
    History(HistoryOutcome),
}

/// Mathematical content of a [`ResolveStep`].
pub enum Plan {
    ReadChangeTime,
    QueryHistory(Invocation),
    Fail(ResolveError),
}

impl View for ResolveStep {
    type V = Plan;

    open spec fn view(&self) -> Plan {
        match *self {
            ResolveStep::ReadChangeTime => Plan::ReadChangeTime,
            ResolveStep::QueryHistory(command) => Plan::QueryHistory(command@),
            ResolveStep::Fail(error) => Plan::Fail(error),
        }
    }
}

/// The step that resolution takes for a file whose path relative to the
/// working copy is `relative`, if it has one.
pub open spec fn planned(config: &Config, relative: Option<Seq<char>>) -> Plan {
    if !config.git_enabled() {
        Plan::ReadChangeTime
    } else {
        match relative {
            None => Plan::Fail(ResolveError::OutsideWorkingCopy),
            Some(file) => Plan::QueryHistory(history_invocation(config.folder_path@, file)),
        }
    }
}

/// Decides the step for a file, given its path relative to the working copy
/// or nothing when it lies outside.
pub fn resolution_step(config: &Config, relative: Option<String>) -> (step: ResolveStep)
    ensures
        step@ == planned(
            config,
            match relative {
                Some(file) => Some(file@),
                None => None,
            },
        ),
{
    if config.git_repo.is_none() {
        return ResolveStep::ReadChangeTime;
    }
    match relative {
        None => ResolveStep::Fail(ResolveError::OutsideWorkingCopy),
        Some(file) => match history_command(config, file.as_str()) {
            Some(command) => ResolveStep::QueryHistory(command),
            None => ResolveStep::ReadChangeTime,
        },
    }
}

/// Decides how the creation time of the file at `path` is to be found.
///
/// With version control disabled the filesystem is asked and no command is
/// produced. With version control enabled the path is taken relative to the
/// working-copy root and the history of that file is queried; a path outside
/// the working copy fails at once.
pub fn plan_resolution(config: &Config, path: &str) -> (step: ResolveStep)
    ensures
        step@ == planned(config, path_below(path@, config.folder_path@)),
        !config.git_enabled() ==> step == ResolveStep::ReadChangeTime,
{
    if config.git_repo.is_none() {
        return ResolveStep::ReadChangeTime;
    }
    let relative = strip_prefix(path, config.folder_path.as_str());
    resolution_step(config, relative)
}

/// The creation time that an observation stands for.
pub open spec fn resolution(observation: Observation) -> Result<i64, ResolveError> {
    match observation {
        Observation::ChangeTime(seconds) => Ok(seconds),
        Observation::MetadataUnreadable(cause) => Err(ResolveError::Metadata(cause)),
        Observation::History(outcome) => match history_result(outcome) {
            Ok(seconds) => Ok(seconds),
            Err(error) => Err(ResolveError::Query(error)),
        },
    }
}

/// Turns what the caller observed into the creation time of the file.
pub fn finish_resolution(observation: Observation) -> (result: Result<i64, ResolveError>)
    ensures
        result == resolution(observation),
        observation matches Observation::ChangeTime(seconds) ==> result == Ok::<i64, ResolveError>(
            seconds,
        ),
{
    match observation {
        Observation::ChangeTime(seconds) => Ok(seconds),
        Observation::MetadataUnreadable(cause) => Err(ResolveError::Metadata(cause)),
        Observation::History(outcome) => match history_timestamp(outcome) {
            Ok(seconds) => Ok(seconds),
            Err(error) => Err(ResolveError::Query(error)),
        },
    }
}

/// With version control disabled, resolution asks for the change time of
/// the file, whatever its path, and returns exactly the change time that
/// the filesystem reported.
pub proof fn disabled_resolution_is_change_time(config: &Config, path: Seq<char>, seconds: i64)
    requires
        !config.git_enabled(),
    ensures
        planned(config, path_below(path, config.folder_path@)) == Plan::ReadChangeTime,
        resolution(Observation::ChangeTime(seconds)) == Ok::<i64, ResolveError>(seconds),
{
}

/// With version control disabled, no step of resolution is a command.
pub proof fn disabled_resolution_runs_nothing(config: &Config, relative: Option<Seq<char>>)
    requires
        !config.git_enabled(),
    ensures
        !(planned(config, relative) is QueryHistory),
{
}

} // verus!
