//! The repository configuration shared by every component.

use vstd::prelude::*;

verus! {

/// Where the working copy lives and, optionally, where it is mirrored from.
///
/// The value is built once at startup and only read afterwards. The remote
/// address is the sole switch for every version-control behaviour: without
/// it no git command is ever produced.
#[derive(Debug, Clone, PartialEq, Eq)]
pub struct Config {
    /// Location of the local working copy.
    pub folder_path: String,
    /// Address of the remote repository, if the working copy mirrors one.
    pub git_repo: Option<String>,
}

/// Mathematical content of a [`Config`].
pub struct Settings {
    pub folder_path: Seq<char>,
    pub git_repo: Option<Seq<char>>,
}

impl View for Config {
    type V = Settings;

    open spec fn view(&self) -> Settings {
        Settings {
            folder_path: self.folder_path@,
            git_repo: match self.git_repo {
                Some(remote) => Some(remote@),
                None => None,
            },
        }
    }
}

impl Config {
    /// Whether version control is enabled for this configuration.
    pub open spec fn git_enabled(&self) -> bool {
        self.git_repo is Some
    }
}

/// Tells whether version control is enabled, that is whether a remote
/// repository address was configured.
pub fn use_git(config: &Config) -> (enabled: bool)
    ensures
        enabled == config.git_enabled(),
        enabled == (config@.git_repo is Some),
{
    config.git_repo.is_some()
}

} // verus!
