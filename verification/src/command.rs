//! The three invocations of the external `git` executable.
//!
//! Nothing here starts a process. Each function describes one fresh
//! invocation as a value: the program, its arguments and what becomes of its
//! two output streams. The caller spawns it and reports what happened.

use vstd::prelude::*;
use crate::config::Config;

verus! {

/// What becomes of one output stream of a spawned process.
#[derive(Debug, Clone, Copy, PartialEq, Eq, Structural)]
pub enum Sink {
    /// The stream stays attached to that of the parent process.
    Inherit,
    /// The stream is thrown away.
    Discard,
    /// The stream is collected and handed back with the exit status.
    Capture,
}

/// One invocation of the version-control tool.
#[derive(Debug, Clone, PartialEq, Eq)]
pub struct VcsCommand {
    /// Name of the executable.
    pub program: String,
    /// Arguments, in order.
    pub args: Vec<String>,
    /// Treatment of standard output.
    pub stdout: Sink,
    /// Treatment of standard error.
    pub stderr: Sink,
}

/// Mathematical content of a [`VcsCommand`].
pub struct Invocation {
    pub program: Seq<char>,
    pub args: Seq<Seq<char>>,
    pub stdout: Sink,
    pub stderr: Sink,
}

impl View for VcsCommand {
    type V = Invocation;

    open spec fn view(&self) -> Invocation {
        Invocation {
            program: self.program@,
            args: Seq::new(self.args@.len(), |i: int| self.args@[i]@),
            stdout: self.stdout,
            stderr: self.stderr,
        }
    }
}

/// `git clone <remote> <destination>`. Standard error is discarded, because
/// the tool reports its ordinary progress there.
pub open spec fn clone_invocation(remote: Seq<char>, destination: Seq<char>) -> Invocation {
    Invocation {
        program: "git"@,
        args: seq!["clone"@, remote, destination],
        stdout: Sink::Inherit,
        stderr: Sink::Discard,
    }
}

/// `git -C <working copy> pull`. Standard output is discarded, standard
/// error stays visible.
pub open spec fn pull_invocation(working_copy: Seq<char>) -> Invocation {
    Invocation {
        program: "git"@,
        args: seq!["-C"@, working_copy, "pull"@],
        stdout: Sink::Discard,
        stderr: Sink::Inherit,
    }
}

/// `git -C <working copy> log --pretty=format:%at --reverse -- <file>`:
/// the author times of the commits that touch the file, oldest first, one
/// per line. Both streams are collected.
pub open spec fn history_invocation(working_copy: Seq<char>, relative_file: Seq<char>)
    -> Invocation {
    Invocation {
        program: "git"@,
        args: seq![
            "-C"@,
            working_copy,
            "log"@,
            "--pretty=format:%at"@,
            "--reverse"@,
            "--"@,
            relative_file,
        ],
        stdout: Sink::Capture,
        stderr: Sink::Capture,
    }
}

/// The command that clones the configured remote into the working copy, or
/// nothing when version control is disabled.
pub fn clone_command(config: &Config) -> (command: Option<VcsCommand>)
    ensures
        command is Some <==> config.git_enabled(),
        command matches Some(c) ==> c@ == clone_invocation(
            config.git_repo->0@,
            config.folder_path@,
        ),
{
    match &config.git_repo {
        None => None,
        Some(remote) => {
            let mut args: Vec<String> = Vec::new();
            args.push("clone".to_owned());
            args.push(remote.clone());
            args.push(config.folder_path.clone());
            let command = VcsCommand {
                program: "git".to_owned(),
                args,
                stdout: Sink::Inherit,
                stderr: Sink::Discard,
            };
            assert(command@.args =~= clone_invocation(remote@, config.folder_path@).args);
            Some(command)
        },
    }
}

/// The command that fast-forwards the working copy from its remote, or
/// nothing when version control is disabled.
pub fn pull_command(config: &Config) -> (command: Option<VcsCommand>)
    ensures
        command is Some <==> config.git_enabled(),
        command matches Some(c) ==> c@ == pull_invocation(config.folder_path@),
{
    if config.git_repo.is_none() {
        return None;
    }
    let mut args: Vec<String> = Vec::new();
    args.push("-C".to_owned());
    args.push(config.folder_path.clone());
    args.push("pull".to_owned());
    let command = VcsCommand {
        program: "git".to_owned(),
        args,
        stdout: Sink::Discard,
        stderr: Sink::Inherit,
    };
    assert(command@.args =~= pull_invocation(config.folder_path@).args);
    Some(command)
}

/// The command that lists the commit times of one file of the working copy,
/// oldest first, or nothing when version control is disabled.
///
/// `relative_file` is the file's path relative to the working-copy root.
pub fn history_command(config: &Config, relative_file: &str) -> (command: Option<VcsCommand>)
    ensures
        command is Some <==> config.git_enabled(),
        command matches Some(c) ==> c@ == history_invocation(
            config.folder_path@,
            relative_file@,
        ),
{
    if config.git_repo.is_none() {
        return None;
    }
    let mut args: Vec<String> = Vec::new();
    args.push("-C".to_owned());
    args.push(config.folder_path.clone());
    args.push("log".to_owned());
    args.push("--pretty=format:%at".to_owned());
    args.push("--reverse".to_owned());
    args.push("--".to_owned());
    args.push(relative_file.to_owned());
    let command = VcsCommand {
        program: "git".to_owned(),
        args,
        stdout: Sink::Capture,
        stderr: Sink::Capture,
    };
    assert(command@.args =~= history_invocation(config.folder_path@, relative_file@).args);
    Some(command)
}

} // verus!
