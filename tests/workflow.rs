use hacknow::path::{remote_locator, target_path};
use hacknow::sync::{Failure, Finish, GitCommand, Job, Outcome, PathState, Stage, Step};

fn ok(stdout: &str) -> Outcome {
    Outcome::Exited { success: true, stdout: stdout.to_string(), stderr: String::new() }
}

fn failed(stderr: &str) -> Outcome {
    Outcome::Exited { success: false, stdout: String::new(), stderr: stderr.to_string() }
}

fn strings(v: &[&str]) -> Vec<String> {
    v.iter().map(|s| s.to_string()).collect()
}

#[test]
fn target_path_joins_with_separator() {
    assert_eq!(target_path("/home/alice", "rust-lang/rust"), "/home/alice/rust-lang/rust");
}

#[test]
fn target_path_keeps_trailing_separator() {
    assert_eq!(target_path("/home/alice/", "owner/name"), "/home/alice/owner/name");
}

#[test]
fn target_path_after_empty_root() {
    assert_eq!(target_path("", "owner/name"), "owner/name");
}

#[test]
fn target_path_ignores_transport() {
    let a = Job::new("/ws", "owner/name", true);
    let b = Job::new("/ws", "owner/name", false);
    assert_eq!(a.target, b.target);
    assert_eq!(a.target, "/ws/owner/name");
}

#[test]
fn ssh_locator() {
    assert_eq!(remote_locator("owner/name", true), "git@github.com:owner/name");
}

#[test]
fn https_locator() {
    assert_eq!(remote_locator("owner/name", false), "https://github.com/owner/name");
}

#[test]
fn handle_is_not_validated() {
    assert_eq!(remote_locator("weird", false), "https://github.com/weird");
    assert_eq!(target_path("/ws", "weird"), "/ws/weird");
}

#[test]
fn directory_starts_with_fetch() {
    let job = Job::new("/ws", "o/n", false);
    assert_eq!(job.start(PathState::Directory), Step::Run(Stage::FetchAll));
}

#[test]
fn absent_starts_with_clone() {
    let job = Job::new("/ws", "o/n", false);
    assert_eq!(job.start(PathState::Absent), Step::Run(Stage::CloneNew));
}

#[test]
fn file_in_the_way_is_a_conflict() {
    let job = Job::new("/ws", "o/n", false);
    let step = job.start(PathState::NonDirectory);
    assert_eq!(step, Step::Done(Finish::Failed(Failure::PathConflict)));
    if let Step::Done(f) = step {
        assert_eq!(f.stdout_text(), ".\n");
        assert_eq!(f.exit_code(), 1);
    }
}

#[test]
fn fetch_then_status_then_ready() {
    let job = Job::new("/ws", "o/n", false);
    assert_eq!(job.advance(Stage::FetchAll, ok("fetched")), Step::Run(Stage::Status));
    let step = job.advance(Stage::Status, ok("On branch main\n"));
    assert_eq!(
        step,
        Step::Done(Finish::Ready {
            path: "/ws/o/n".to_string(),
            overview: Some("On branch main\n".to_string()),
        })
    );
}

#[test]
fn clone_then_ready() {
    let job = Job::new("/ws", "o/n", true);
    let step = job.advance(Stage::CloneNew, ok(""));
    assert_eq!(step, Step::Done(Finish::Ready { path: "/ws/o/n".to_string(), overview: None }));
}

#[test]
fn launch_failure_is_fatal() {
    let job = Job::new("/ws", "o/n", false);
    for stage in [Stage::FetchAll, Stage::Status, Stage::CloneNew] {
        let step = job.advance(stage, Outcome::LaunchFailed);
        assert_eq!(step, Step::Done(Finish::Failed(Failure::LaunchFailed)));
    }
    assert_eq!(Failure::LaunchFailed.message(), "Launching git failed!");
}

#[test]
fn any_failed_command_is_fatal() {
    let job = Job::new("/ws", "o/n", false);
    for stage in [Stage::FetchAll, Stage::Status, Stage::CloneNew] {
        let step = job.advance(stage, failed("fatal: not a git repository"));
        let fail = Failure::CommandFailed { stderr: "fatal: not a git repository".to_string() };
        assert_eq!(step, Step::Done(Finish::Failed(fail.clone())));
        assert_eq!(fail.message(), "Git command failed:\nfatal: not a git repository");
        let f = Finish::Failed(fail);
        assert_eq!(f.stdout_text(), ".\n");
        assert_ne!(f.exit_code(), 0);
    }
}

#[test]
fn conflict_message() {
    assert_eq!(
        Failure::PathConflict.message(),
        "On the desired path is a file, therefore we can not create a directory there"
    );
}

#[test]
fn usage_message_passes_through() {
    let f = Failure::Usage { message: "error: missing REPO".to_string() };
    assert_eq!(f.message(), "error: missing REPO");
    let f = Finish::Failed(f);
    assert_eq!(f.stdout_text(), ".\n");
    assert_eq!(f.exit_code(), 1);
}

#[test]
fn encoding_message() {
    assert_eq!(Failure::Encoding.message(), "final directory path is not UTF-8 compatible");
}

#[test]
fn success_prints_only_the_path() {
    let f = Finish::Ready { path: "/ws/o/n".to_string(), overview: Some("clean".to_string()) };
    assert_eq!(f.stdout_text(), "/ws/o/n\n");
    assert_eq!(f.stdout_text().lines().count(), 1);
    assert_eq!(f.exit_code(), 0);
}

#[test]
fn commands_per_stage() {
    let job = Job::new("/ws", "o/n", true);
    assert_eq!(
        job.command(Stage::FetchAll),
        GitCommand { args: strings(&["fetch", "--all"]), cwd: Some("/ws/o/n".to_string()) }
    );
    assert_eq!(
        job.command(Stage::Status),
        GitCommand { args: strings(&["status"]), cwd: Some("/ws/o/n".to_string()) }
    );
    assert_eq!(
        job.command(Stage::CloneNew),
        GitCommand { args: strings(&["clone", "git@github.com:o/n", "/ws/o/n"]), cwd: None }
    );
}

#[test]
fn https_clone_command() {
    let job = Job::new("/ws", "o/n", false);
    assert_eq!(job.command(Stage::CloneNew).args, strings(&["clone", "https://github.com/o/n", "/ws/o/n"]));
}

#[test]
fn second_run_refreshes_and_reports_same_path() {
    let job = Job::new("/ws", "o/n", false);
    assert_eq!(job.start(PathState::Absent), Step::Run(Stage::CloneNew));
    let first = match job.advance(Stage::CloneNew, ok("")) {
        Step::Done(f) => f,
        other => panic!("unexpected {:?}", other),
    };
    assert_eq!(job.start(PathState::Directory), Step::Run(Stage::FetchAll));
    assert_eq!(job.advance(Stage::FetchAll, ok("")), Step::Run(Stage::Status));
    let second = match job.advance(Stage::Status, ok("nothing to commit")) {
        Step::Done(f) => f,
        other => panic!("unexpected {:?}", other),
    };
    assert_eq!(first.stdout_text(), "/ws/o/n\n");
    assert_eq!(first.stdout_text(), second.stdout_text());
}
