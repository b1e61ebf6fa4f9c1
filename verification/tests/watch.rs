use clone_cgroup::child_status::ChildStatus;
use clone_cgroup::watch::{
    exit_report, sigchld_reaction, wait_failure_message, watch_banner, watch_step, WaitOutcome,
    WatchAction, POLL_PAUSE_MS,
};

#[test]
fn living_child_is_polled_again() {
    match watch_step(&WaitOutcome::Status(ChildStatus::StillAlive)) {
        WatchAction::KeepWaiting { note, pause_ms } => {
            assert_eq!(note, "[main] Child is still alive, do my own stuff while waiting.");
            assert_eq!(pause_ms, 500);
            assert_eq!(POLL_PAUSE_MS, 500);
        }
        _ => panic!("expected to keep waiting"),
    }
}

#[test]
fn exited_child_ends_the_watch() {
    match watch_step(&WaitOutcome::Status(ChildStatus::Exited(31887, 0))) {
        WatchAction::Finish { report, farewell } => {
            assert_eq!(report, "[main] Child exited with status Exited(Pid(31887), 0).");
            assert_eq!(farewell, "[main] Bye Bye!");
        }
        _ => panic!("expected the watch to end"),
    }
}

#[test]
fn killed_child_ends_the_watch() {
    match watch_step(&WaitOutcome::Status(ChildStatus::Signaled(31887, 9, false))) {
        WatchAction::Finish { report, .. } => {
            assert_eq!(report, "[main] Child exited with status Signaled(Pid(31887), SIGKILL, false).");
        }
        _ => panic!("expected the watch to end"),
    }
}

#[test]
fn failed_wait_aborts_with_errno_text() {
    match watch_step(&WaitOutcome::Failed(libc::ECHILD)) {
        WatchAction::Abort { message } => {
            assert_eq!(message, "[main] waitpid() failed: ECHILD: No child processes");
        }
        _ => panic!("expected to abort"),
    }
}

#[test]
fn messages_around_the_watch() {
    assert_eq!(watch_banner(12), "[main] I'll be doing my own stuff while waiting for the child 12 termination...");
    assert_eq!(wait_failure_message("EINTR: Interrupted system call".to_string()), "[main] waitpid() failed: EINTR: Interrupted system call");
    assert_eq!(exit_report("StillAlive".to_string()), "[main] Child exited with status StillAlive.");
}

#[test]
fn sigchld_reaction_when_reaped() {
    let r = sigchld_reaction(true);
    assert_eq!(r.first, "[main] Child exited.\n");
    assert_eq!(r.second, Some("[main] Bye Bye!\n"));
    assert_eq!(r.exit_status, 0);
}

#[test]
fn sigchld_reaction_when_wait_failed() {
    let r = sigchld_reaction(false);
    assert_eq!(r.first, "[main] waitpid() failed.\n");
    assert_eq!(r.second, None);
    assert_eq!(r.exit_status, 1);
}

#[test]
fn failed_wait_with_no_error_number() {
    match watch_step(&WaitOutcome::Failed(0)) {
        WatchAction::Abort { message } => {
            assert_eq!(message, "[main] waitpid() failed: UnknownErrno: Unknown errno");
        }
        _ => panic!("expected to abort"),
    }
}

#[test]
fn failed_wait_names_the_error() {
    for code in 1..=34 {
        match watch_step(&WaitOutcome::Failed(code)) {
            WatchAction::Abort { message } => {
                assert_eq!(message, format!("[main] waitpid() failed: {}", nix::errno::Errno::from_i32(code)));
            }
            _ => panic!("expected to abort"),
        }
    }
    match watch_step(&WaitOutcome::Failed(libc::EINTR)) {
        WatchAction::Abort { message } => {
            assert_eq!(message, "[main] waitpid() failed: EINTR: Interrupted system call");
        }
        _ => panic!("expected to abort"),
    }
}
