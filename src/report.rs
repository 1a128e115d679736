use vstd::prelude::*;

use crate::sync::{advance_spec, start_spec, Failure, Finish, Outcome, Stage, Step, PathState};

verus! {

/// The line that tells scripts no usable path came out: `.`.
pub open spec fn sentinel() -> Seq<char> {
    seq!['.']
}

/// Everything a run writes to standard output: the ready path on its own
/// line, or the sentinel line on failure.
pub open spec fn stdout_spec(f: Finish) -> Seq<char> {
    match f {
        Finish::Ready { path, .. } => path@ + seq!['\n'],
        Finish::Failed(_) => sentinel() + seq!['\n'],
    }
}

/// The process exit status of a run.
pub open spec fn exit_code_spec(f: Finish) -> i32 {
    match f {
        Finish::Ready { .. } => 0,
        Finish::Failed(_) => 1,
    }
}

/// The diagnostic written to standard error for a failure. A failed command
/// surfaces its captured standard error after the headline.
pub open spec fn message_spec(e: Failure) -> Seq<char> {
    match e {
        Failure::Usage { message } => message@,
        Failure::PathConflict =>
            "On the desired path is a file, therefore we can not create a directory there"@,
        Failure::Encoding => "final directory path is not UTF-8 compatible"@,
        Failure::LaunchFailed => "Launching git failed!"@,
        Failure::CommandFailed { stderr } => "Git command failed:\n"@ + stderr@,
    }
}

impl Failure {
    /// The human-readable diagnostic for this failure.
    pub fn message(&self) -> (r: String)
        ensures
            r@ == message_spec(*self),
    {
        match self {
            Failure::Usage { message } => message.clone(),
            Failure::PathConflict => String::from_str(
                "On the desired path is a file, therefore we can not create a directory there",
            ),
            Failure::Encoding => String::from_str("final directory path is not UTF-8 compatible"),
            Failure::LaunchFailed => String::from_str("Launching git failed!"),
            Failure::CommandFailed { stderr } => {
                let mut r = String::from_str("Git command failed:\n");
                r.append(stderr.as_str());
                r
            },
        }
    }
}

impl Finish {
    /// The text for standard output, final newline included.
    pub fn stdout_text(&self) -> (r: String)
        ensures
            r@ == stdout_spec(*self),
    {
        let mut r = match self {
            Finish::Ready { path, .. } => path.clone(),
            Finish::Failed(_) => {
                let s = ".";
                proof {
                    reveal_strlit(".");
                }
                assert(s@ =~= sentinel());
                String::from_str(s)
            },
        };
        let nl = "\n";
        proof {
            reveal_strlit("\n");
        }
        assert(nl@ =~= seq!['\n']);
        r.append(nl);
        r
    }

    /// The process exit status: zero on success, one on any failure.
    pub fn exit_code(&self) -> (r: i32)
        ensures
            r == exit_code_spec(*self),
    {
        match self {
            Finish::Ready { .. } => 0,
            Finish::Failed(_) => 1,
        }
    }
}

/// A target occupied by something other than a directory ends the run at
/// once: no command is issued, the sentinel is printed and the exit status
/// is non-zero.
pub proof fn conflict_is_fatal()
    ensures
        start_spec(PathState::NonDirectory) == Step::Done(Finish::Failed(Failure::PathConflict)),
        !(start_spec(PathState::NonDirectory) is Run),
        stdout_spec(Finish::Failed(Failure::PathConflict)) == sentinel() + seq!['\n'],
        exit_code_spec(Finish::Failed(Failure::PathConflict)) != 0,
{
}

/// Whichever command exits unsuccessfully, the run fails with that
/// command's standard error at the end of the diagnostic, prints the
/// sentinel and exits non-zero.
pub proof fn command_failure_is_fatal(target: String, stage: Stage, stdout: String, stderr: String)
    ensures
        ({
            let step = advance_spec(
                target,
                stage,
                Outcome::Exited { success: false, stdout, stderr },
            );
            &&& step == Step::Done(Finish::Failed(Failure::CommandFailed { stderr }))
            &&& message_spec(Failure::CommandFailed { stderr }).len() >= stderr@.len()
            &&& message_spec(Failure::CommandFailed { stderr }).subrange(
                message_spec(Failure::CommandFailed { stderr }).len() - stderr@.len(),
                message_spec(Failure::CommandFailed { stderr }).len() as int,
            ) == stderr@
            &&& stdout_spec(Finish::Failed(Failure::CommandFailed { stderr })) == sentinel() + seq!['\n']
            &&& exit_code_spec(Finish::Failed(Failure::CommandFailed { stderr })) != 0
        }),
{
    let m = message_spec(Failure::CommandFailed { stderr });
    assert(m.subrange(m.len() - stderr@.len(), m.len() as int) =~= stderr@);
}

/// Every successful end of a run reports the job's target path, and
/// standard output is exactly that path followed by one newline.
pub proof fn success_prints_target(target: String, stage: Stage, outcome: Outcome)
    requires
        advance_spec(target, stage, outcome) is Done,
        advance_spec(target, stage, outcome)->Done_0 is Ready,
    ensures
        ({
            let f = advance_spec(target, stage, outcome)->Done_0;
            &&& f->Ready_path == target
            &&& stdout_spec(f) == target@ + seq!['\n']
            &&& exit_code_spec(f) == 0
        }),
{
}

/// A clone that succeeded leaves a directory at the target, so running the
/// same job again refreshes that checkout instead of cloning, and both runs
/// report the same path.
pub proof fn rerun_refreshes(target: String, out1: String, err1: String, out2: String, err2: String, out3: String, err3: String)
    ensures
        start_spec(PathState::Absent) == Step::Run(Stage::CloneNew),
        advance_spec(target, Stage::CloneNew, Outcome::Exited { success: true, stdout: out1, stderr: err1 })
            == Step::Done(Finish::Ready { path: target, overview: None }),
        start_spec(PathState::Directory) == Step::Run(Stage::FetchAll),
        advance_spec(target, Stage::FetchAll, Outcome::Exited { success: true, stdout: out2, stderr: err2 })
            == Step::Run(Stage::Status),
        advance_spec(target, Stage::Status, Outcome::Exited { success: true, stdout: out3, stderr: err3 })
            == Step::Done(Finish::Ready { path: target, overview: Some(out3) }),
        stdout_spec(Finish::Ready { path: target, overview: None })
            == stdout_spec(Finish::Ready { path: target, overview: Some(out3) }),
{
}

} // verus!
