use vstd::prelude::*;

use crate::path::{
    https_prefix, remote_locator, remote_locator_spec, ssh_prefix, target_path, target_path_spec,
};

verus! {

/// What the filesystem holds at the target path, observed once per run.
#[derive(Clone, Copy, Debug, PartialEq, Eq, Structural)]
pub enum PathState {
    Absent,
    Directory,
    NonDirectory,
}

/// The version-control commands a run may issue.
#[derive(Clone, Copy, Debug, PartialEq, Eq, Structural)]
pub enum Stage {
    /// `git fetch --all` inside an existing checkout.
    FetchAll,
    /// `git status` inside an existing checkout.
    Status,
    /// `git clone <locator> <target>` for a project not yet on disk.
    CloneNew,
}

/// What came back from one version-control command.
#[derive(Clone, Debug, PartialEq, Eq)]
pub enum Outcome {
    /// The executable could not be started.
    LaunchFailed,
    /// The executable ran to completion.
    Exited { success: bool, stdout: String, stderr: String },
}

/// The fatal conditions of a run.
#[derive(Clone, Debug, PartialEq, Eq)]
pub enum Failure {
    /// The command line could not be parsed.
    Usage { message: String },
    /// Something other than a directory occupies the target path.
    PathConflict,
    /// A path could not be represented as text.
    Encoding,
    /// The version-control executable could not be started.
    LaunchFailed,
    /// The version-control executable exited unsuccessfully.
    CommandFailed { stderr: String },
}

/// How a run ends.
#[derive(Clone, Debug, PartialEq, Eq)]
pub enum Finish {
    /// The checkout at `path` is ready; `overview` is the status listing
    /// when an existing checkout was refreshed.
    Ready { path: String, overview: Option<String> },
    Failed(Failure),
}

/// What a run does next.
#[derive(Clone, Debug, PartialEq, Eq)]
pub enum Step {
    Run(Stage),
    Done(Finish),
}

/// One invocation of the version-control executable.
#[derive(Clone, Debug, PartialEq, Eq)]
pub struct GitCommand {
    pub args: Vec<String>,
    /// The working directory; `None` keeps the caller's.
    pub cwd: Option<String>,
}

/// One fetch-or-refresh job: where the project goes and where it comes from.
#[derive(Clone, Debug, PartialEq, Eq)]
pub struct Job {
    pub target: String,
    pub locator: String,
}

/// The first step of a run, from the state of the target path.
pub open spec fn start_spec(state: PathState) -> Step {
    match state {
        PathState::Directory => Step::Run(Stage::FetchAll),
        PathState::Absent => Step::Run(Stage::CloneNew),
        PathState::NonDirectory => Step::Done(Finish::Failed(Failure::PathConflict)),
    }
}

/// The step after `stage` came back with `outcome`. Any failure is fatal;
/// a refresh runs a fetch then a status, a clone is a single command.
pub open spec fn advance_spec(target: String, stage: Stage, outcome: Outcome) -> Step {
    match outcome {
        Outcome::LaunchFailed => Step::Done(Finish::Failed(Failure::LaunchFailed)),
        Outcome::Exited { success, stdout, stderr } => {
            if !success {
                Step::Done(Finish::Failed(Failure::CommandFailed { stderr }))
            } else {
                match stage {
                    Stage::FetchAll => Step::Run(Stage::Status),
                    Stage::Status => Step::Done(Finish::Ready { path: target, overview: Some(stdout) }),
                    Stage::CloneNew => Step::Done(Finish::Ready { path: target, overview: None }),
                }
            }
        },
    }
}

/// The arguments handed to the version-control executable for `stage`.
pub open spec fn command_args_spec(stage: Stage, target: Seq<char>, locator: Seq<char>) -> Seq<
    Seq<char>,
> {
    match stage {
        Stage::FetchAll => seq!["fetch"@, "--all"@],
        Stage::Status => seq!["status"@],
        Stage::CloneNew => seq!["clone"@, locator, target],
    }
}

impl Job {
    /// A job for `repo` under the workspace root `dir`; `ssh` selects the
    /// SSH locator over the HTTPS one.
    pub fn new(dir: &str, repo: &str, ssh: bool) -> (r: Job)
        ensures
            r.target@ == target_path_spec(dir@, repo@),
            r.locator@ == remote_locator_spec(repo@, ssh),
    {
        Job { target: target_path(dir, repo), locator: remote_locator(repo, ssh) }
    }

    /// Decides what to do given what lies at the target path.
    pub fn start(&self, state: PathState) -> (r: Step)
        ensures
            r == start_spec(state),
    {
        match state {
            PathState::Directory => Step::Run(Stage::FetchAll),
            PathState::Absent => Step::Run(Stage::CloneNew),
            PathState::NonDirectory => Step::Done(Finish::Failed(Failure::PathConflict)),
        }
    }

    /// Decides what to do once `stage` has come back with `outcome`.
    pub fn advance(&self, stage: Stage, outcome: Outcome) -> (r: Step)
        ensures
            r == advance_spec(self.target, stage, outcome),
    {
        match outcome {
            Outcome::LaunchFailed => Step::Done(Finish::Failed(Failure::LaunchFailed)),
            Outcome::Exited { success, stdout, stderr } => {
                if !success {
                    Step::Done(Finish::Failed(Failure::CommandFailed { stderr }))
                } else {
                    match stage {
                        Stage::FetchAll => Step::Run(Stage::Status),
                        Stage::Status => Step::Done(
                            Finish::Ready { path: self.target.clone(), overview: Some(stdout) },
                        ),
                        Stage::CloneNew => Step::Done(
                            Finish::Ready { path: self.target.clone(), overview: None },
                        ),
                    }
                }
            },
        }
    }

    /// The command that carries out `stage`: fetch and status run inside
    /// the checkout, a clone names its destination instead.
    pub fn command(&self, stage: Stage) -> (r: GitCommand)
        ensures
            r.args@.map_values(|a: String| a@) == command_args_spec(stage, self.target@, self.locator@),
            stage == Stage::CloneNew ==> r.cwd is None,
            stage != Stage::CloneNew ==> r.cwd == Some(self.target),
    {
        let mut args: Vec<String> = Vec::new();
        match stage {
            Stage::FetchAll => {
                args.push(String::from_str("fetch"));
                args.push(String::from_str("--all"));
            },
            Stage::Status => {
                args.push(String::from_str("status"));
            },
            Stage::CloneNew => {
                args.push(String::from_str("clone"));
                args.push(self.locator.clone());
                args.push(self.target.clone());
            },
        }
        assert(args@.map_values(|a: String| a@) =~= command_args_spec(stage, self.target@, self.locator@));
        let cwd = match stage {
            Stage::CloneNew => None,
            _ => Some(self.target.clone()),
        };
        GitCommand { args, cwd }
    }
}

/// A project that is not on disk yet is cloned from `git@github.com:<repo>`
/// when SSH is chosen and from `https://github.com/<repo>` otherwise.
pub proof fn clone_locator_follows_transport(target: Seq<char>, repo: Seq<char>, ssh: bool)
    ensures
        start_spec(PathState::Absent) == Step::Run(Stage::CloneNew),
        command_args_spec(Stage::CloneNew, target, remote_locator_spec(repo, ssh))[1] == if ssh {
            ssh_prefix() + repo
        } else {
            https_prefix() + repo
        },
{
}

} // verus!
