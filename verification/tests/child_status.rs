use clone_cgroup::child_status::{describe_status, status_debug_text, ChildStatus};
use nix::sys::signal::Signal;
use nix::sys::wait::WaitStatus;
use nix::unistd::Pid;

#[test]
fn killed_child_reads_as_in_readme() {
    let status = ChildStatus::Signaled(31887, Signal::SIGKILL as i32, false);
    assert_eq!(status_debug_text(&status), "Signaled(Pid(31887), SIGKILL, false)");
}

#[test]
fn status_text_matches_nix_debug() {
    let pid = Pid::from_raw(4242);
    let cases = [
        (ChildStatus::Exited(4242, 0), WaitStatus::Exited(pid, 0)),
        (ChildStatus::Exited(4242, 3), WaitStatus::Exited(pid, 3)),
        (ChildStatus::Signaled(4242, Signal::SIGSEGV as i32, true), WaitStatus::Signaled(pid, Signal::SIGSEGV, true)),
        (ChildStatus::Stopped(4242, Signal::SIGSTOP as i32), WaitStatus::Stopped(pid, Signal::SIGSTOP)),
        (ChildStatus::PtraceEvent(4242, Signal::SIGTRAP as i32, 6), WaitStatus::PtraceEvent(pid, Signal::SIGTRAP, 6)),
        (ChildStatus::PtraceSyscall(4242), WaitStatus::PtraceSyscall(pid)),
        (ChildStatus::Continued(4242), WaitStatus::Continued(pid)),
        (ChildStatus::StillAlive, WaitStatus::StillAlive),
    ];
    for (ours, theirs) in cases {
        assert_eq!(status_debug_text(&ours), format!("{:?}", theirs));
    }
}

#[test]
fn describe_status_uses_given_name() {
    let status = ChildStatus::Signaled(7, 9, false);
    assert_eq!(describe_status(&status, Some("KILL".to_string())), "Signaled(Pid(7), KILL, false)");
    assert_eq!(describe_status(&status, None), "Signaled(Pid(7), 9, false)");
    assert_eq!(describe_status(&ChildStatus::Stopped(-3, 19), None), "Stopped(Pid(-3), 19)");
    assert_eq!(describe_status(&ChildStatus::Exited(1, -2), None), "Exited(Pid(1), -2)");
}

#[test]
fn unknown_signal_number_is_written_as_number() {
    assert_eq!(status_debug_text(&ChildStatus::Signaled(5, 1000, true)), "Signaled(Pid(5), 1000, true)");
}

#[test]
fn portable_signals_are_named() {
    let names = [
        (1, "SIGHUP"), (2, "SIGINT"), (3, "SIGQUIT"), (4, "SIGILL"), (5, "SIGTRAP"), (6, "SIGABRT"),
        (8, "SIGFPE"), (9, "SIGKILL"), (11, "SIGSEGV"), (13, "SIGPIPE"), (14, "SIGALRM"), (15, "SIGTERM"),
    ];
    for (signo, name) in names {
        assert_eq!(status_debug_text(&ChildStatus::Stopped(2, signo)), format!("Stopped(Pid(2), {})", name));
    }
}

#[test]
fn non_positive_signal_is_written_as_number() {
    assert_eq!(status_debug_text(&ChildStatus::Signaled(5, 0, false)), "Signaled(Pid(5), 0, false)");
    assert_eq!(status_debug_text(&ChildStatus::PtraceEvent(5, -3, 1)), "PtraceEvent(Pid(5), -3, 1)");
}
