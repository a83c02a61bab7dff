//! What happens between process start and the first served request.
//!
//! The caller reads the two environment variables, looks at the disk and
//! runs the clone; the functions here decide what the settings are, which
//! step comes next and when startup has failed for good.

use vstd::prelude::*;
use crate::command::{clone_command, clone_invocation, Invocation, VcsCommand};
use crate::config::{Config, Settings};
use crate::process::{completion, process_result, ProcessOutcome};

verus! {

/// Name of the environment variable that holds the working-copy path.
pub const LOCAL_PATH_VARIABLE: &'static str = "PIN_LOCAL_PATH";

/// Name of the environment variable that holds the remote address.
pub const BLOG_REPO_VARIABLE: &'static str = "PIN_BLOG_REPO";

/// Working-copy path used when the environment names none.
pub const DEFAULT_LOCAL_PATH: &'static str = "./blog";

/// What the environment holds for one variable.
#[derive(Debug, Clone, PartialEq, Eq)]
pub enum EnvValue {
    /// The variable is not set.
    Unset,
    /// The variable is set to something that is not valid Unicode.
    NotUnicode,
    /// The variable is set to this text.
    Text(String),
}

/// A reason for which the process gives up during startup.
#[derive(Debug, Clone, Copy, PartialEq, Eq, Structural)]
pub enum StartupError {
    /// The configured working-copy path cannot be used.
    InvalidPath,
    /// The initial clone failed.
    CloneFailed,
    /// The working-copy folder could not be created.
    FolderCreation,
    /// The configured remote address cannot be used.
    InvalidRepository,
}

impl StartupError {
    /// The exit status that reports this error.
    pub open spec fn status(self) -> int {
        match self {
            StartupError::InvalidPath => 1,
            StartupError::CloneFailed => 2,
            StartupError::FolderCreation => 3,
            StartupError::InvalidRepository => 4,
        }
    }

    /// The exit status with which the process ends on this error.
    pub fn exit_code(&self) -> (code: i32)
        ensures
            code == self.status(),
    {
        match self {
            StartupError::InvalidPath => 1,
            StartupError::CloneFailed => 2,
            StartupError::FolderCreation => 3,
            StartupError::InvalidRepository => 4,
        }
    }
}

/// Every startup error ends the process with a non-zero status, and no two
/// errors share one.
pub proof fn exit_codes_distinct(a: StartupError, b: StartupError)
    ensures
        a.status() != 0,
        a != b ==> a.status() != b.status(),
{
}

/// The settings that the two variables stand for. The path falls back to the
/// default when unset; the remote address stays absent when unset. A path
/// that is not Unicode is reported before a remote address that is not.
pub open spec fn settings_of(path: EnvValue, repo: EnvValue) -> Result<Settings, StartupError> {
    match (path, repo) {
        (EnvValue::NotUnicode, _) => Err(StartupError::InvalidPath),
        (_, EnvValue::NotUnicode) => Err(StartupError::InvalidRepository),
        _ => Ok(
            Settings {
                folder_path: match path {
                    EnvValue::Text(p) => p@,
                    _ => DEFAULT_LOCAL_PATH@,
                },
                git_repo: match repo {
                    EnvValue::Text(r) => Some(r@),
                    _ => None,
                },
            },
        ),
    }
}

/// Builds the configuration from what the environment holds for the path
/// variable and for the repository variable.
pub fn read_settings(path: EnvValue, repo: EnvValue) -> (settings: Result<Config, StartupError>)
    ensures
        match settings {
            Ok(config) => settings_of(path, repo) == Ok::<Settings, StartupError>(config@),
            Err(error) => settings_of(path, repo) == Err::<Settings, StartupError>(error),
        },
{
    let folder_path = match path {
        EnvValue::NotUnicode => {
            return Err(StartupError::InvalidPath);
        },
        EnvValue::Unset => DEFAULT_LOCAL_PATH.to_owned(),
        EnvValue::Text(p) => p,
    };
    let git_repo = match repo {
        EnvValue::NotUnicode => {
            return Err(StartupError::InvalidRepository);
        },
        EnvValue::Unset => None,
        EnvValue::Text(r) => Some(r),
    };
    Ok(Config { folder_path, git_repo })
}

/// Something the caller observed while starting up.
#[derive(Debug, Clone, PartialEq, Eq)]
pub enum StartupEvent {
    /// The working-copy folder already exists.
    FolderFound,
    /// The working-copy folder does not exist.
    FolderMissing,
    /// The working-copy folder has been created.
    FolderCreated,
    /// Creating the working-copy folder failed.
    FolderCreationFailed,
    /// The clone that was asked for has ended.
    CloneFinished(ProcessOutcome),
}

/// What the caller is to do next.
#[derive(Debug, Clone, PartialEq, Eq)]
pub enum StartupAction {
    /// Create the working-copy folder, with its parents.
    CreateFolder,
    /// Run this clone and wait for it.
    Clone(VcsCommand),
    /// Startup is complete: serve requests.
    Serve,
    /// Give up and exit with the status of this error.
    Exit(StartupError),
}

/// Mathematical content of a [`StartupAction`].
pub enum StartupPlan {
    CreateFolder,
    Clone(Invocation),
    Serve,
    Exit(StartupError),
}

impl View for StartupAction {
    type V = StartupPlan;

    open spec fn view(&self) -> StartupPlan {
        match *self {
            StartupAction::CreateFolder => StartupPlan::CreateFolder,
            StartupAction::Clone(command) => StartupPlan::Clone(command@),
            StartupAction::Serve => StartupPlan::Serve,
            StartupAction::Exit(error) => StartupPlan::Exit(error),
        }
    }
}

/// The step that follows an observation.
///
/// An existing folder is reused as it is, without a clone. A missing one is
/// created and, when version control is enabled, filled by a clone whose
/// failure is fatal.
pub open spec fn next_startup_plan(config: &Config, event: StartupEvent) -> StartupPlan {
    match event {
        StartupEvent::FolderFound => StartupPlan::Serve,
        StartupEvent::FolderMissing => StartupPlan::CreateFolder,
        StartupEvent::FolderCreationFailed => StartupPlan::Exit(StartupError::FolderCreation),
        StartupEvent::FolderCreated => match config.git_repo {
            Some(remote) => StartupPlan::Clone(clone_invocation(remote@, config.folder_path@)),
            None => StartupPlan::Serve,
        },
        StartupEvent::CloneFinished(outcome) => if completion(outcome) is Ok {
            StartupPlan::Serve
        } else {
            StartupPlan::Exit(StartupError::CloneFailed)
        },
    }
}

/// Decides the step that follows an observation.
pub fn startup_step(config: &Config, event: StartupEvent) -> (action: StartupAction)
    ensures
        action@ == next_startup_plan(config, event),
{
    match event {
        StartupEvent::FolderFound => StartupAction::Serve,
        StartupEvent::FolderMissing => StartupAction::CreateFolder,
        StartupEvent::FolderCreationFailed => StartupAction::Exit(StartupError::FolderCreation),
        StartupEvent::FolderCreated => match clone_command(config) {
            Some(command) => StartupAction::Clone(command),
            None => StartupAction::Serve,
        },
        StartupEvent::CloneFinished(outcome) => match process_result(outcome) {
            Ok(()) => StartupAction::Serve,
            Err(_) => StartupAction::Exit(StartupError::CloneFailed),
        },
    }
}

/// Without a remote address startup never asks for a clone.
pub proof fn disabled_startup_runs_nothing(config: &Config, event: StartupEvent)
    requires
        !config.git_enabled(),
    ensures
        !(next_startup_plan(config, event) is Clone),
{
}

} // verus!
