//! The parent's decisions while it waits for the cloned child to terminate.
//!
//! The parent polls `waitpid` without blocking.  Each poll is handed to
//! [`watch_step`], which says what to print and whether to pause and poll
//! again, to stop watching, or to give up.  The signal handler variant of the
//! parent reaps the child once on `SIGCHLD` and exits; [`sigchld_reaction`]
//! says what it writes and with which status it exits.

use vstd::prelude::*;
use vstd::string::StringExecFns;
use crate::decimal::{decimal, push_decimal};
use crate::child_status::{
    ChildStatus, portable_status_name, status_text_admissible, status_text_named,
    status_debug_text, status_unnamed,
};

verus! {

/// Milliseconds the parent pauses between two polls of a living child.
pub const POLL_PAUSE_MS: u64 = 500;

/// The result of one `waitpid` poll: a status, or the error number of a
/// failed call.
#[derive(Clone, Copy, Debug, PartialEq, Eq, Structural)]
pub enum WaitOutcome {
    Status(ChildStatus),
    Failed(i32),
}

/// What the parent does after a poll.
pub enum WatchAction {
    /// Print `note`, pause `pause_ms` milliseconds, then poll again.
    KeepWaiting { note: String, pause_ms: u64 },
    /// Print `report`, stop watching, then print `farewell`.
    Finish { report: String, farewell: String },
    /// Stop the program with `message` (the call itself failed).
    Abort { message: String },
}

/// nix's text of the errors numbered 1 to 34, the numbers every Linux and
/// Android architecture gives the same errors (the only targets this library
/// builds for: nix offers `clone` there alone).
pub open spec fn portable_errno_text(code: i32) -> Option<Seq<char>> {
    if code == 1 {
        Some("EPERM: Operation not permitted"@)
    } else if code == 2 {
        Some("ENOENT: No such file or directory"@)
    } else if code == 3 {
        Some("ESRCH: No such process"@)
    } else if code == 4 {
        Some("EINTR: Interrupted system call"@)
    } else if code == 5 {
        Some("EIO: I/O error"@)
    } else if code == 6 {
        Some("ENXIO: No such device or address"@)
    } else if code == 7 {
        Some("E2BIG: Argument list too long"@)
    } else if code == 8 {
        Some("ENOEXEC: Exec format error"@)
    } else if code == 9 {
        Some("EBADF: Bad file number"@)
    } else if code == 10 {
        Some("ECHILD: No child processes"@)
    } else if code == 11 {
        Some("EAGAIN: Try again"@)
    } else if code == 12 {
        Some("ENOMEM: Out of memory"@)
    } else if code == 13 {
        Some("EACCES: Permission denied"@)
    } else if code == 14 {
        Some("EFAULT: Bad address"@)
    } else if code == 15 {
        Some("ENOTBLK: Block device required"@)
    } else if code == 16 {
        Some("EBUSY: Device or resource busy"@)
    } else if code == 17 {
        Some("EEXIST: File exists"@)
    } else if code == 18 {
        Some("EXDEV: Cross-device link"@)
    } else if code == 19 {
        Some("ENODEV: No such device"@)
    } else if code == 20 {
        Some("ENOTDIR: Not a directory"@)
    } else if code == 21 {
        Some("EISDIR: Is a directory"@)
    } else if code == 22 {
        Some("EINVAL: Invalid argument"@)
    } else if code == 23 {
        Some("ENFILE: File table overflow"@)
    } else if code == 24 {
        Some("EMFILE: Too many open files"@)
    } else if code == 25 {
        Some("ENOTTY: Not a typewriter"@)
    } else if code == 26 {
        Some("ETXTBSY: Text file busy"@)
    } else if code == 27 {
        Some("EFBIG: File too large"@)
    } else if code == 28 {
        Some("ENOSPC: No space left on device"@)
    } else if code == 29 {
        Some("ESPIPE: Illegal seek"@)
    } else if code == 30 {
        Some("EROFS: Read-only file system"@)
    } else if code == 31 {
        Some("EMLINK: Too many links"@)
    } else if code == 32 {
        Some("EPIPE: Broken pipe"@)
    } else if code == 33 {
        Some("EDOM: Math argument out of domain of func"@)
    } else if code == 34 {
        Some("ERANGE: Math result not representable"@)
    } else {
        None
    }
}

/// `nix::errno::Errno::from_i32(code).to_string()`: the error's constant
/// name, a colon, a space and its description (`"ECHILD: No child
/// processes"`).  Stated: the text of the errors of `portable_errno_text`;
/// that 0, which no error has, reads as nix's `UnknownErrno`; and that every
/// text has the form name, `": "`, description.  Left unsaid: the text of
/// numbers above 34, whose errors differ between architectures.
#[verifier::external_body]
fn errno_text(code: i32) -> (text: String)
    ensures
        code == 0 ==> text@ == "UnknownErrno: Unknown errno"@,
        portable_errno_text(code) is Some ==> text@ == portable_errno_text(code)->0,
        exists|name: Seq<char>, desc: Seq<char>| text@ == name + ": "@ + desc,
{
    nix::errno::Errno::from_i32(code).to_string()
}

/// The line printed before the parent starts waiting for `child`.
pub fn watch_banner(child: i32) -> (line: String)
    ensures
        line@ == "[main] I'll be doing my own stuff while waiting for the child "@ + decimal(
            child as int,
        ) + " termination..."@,
{
    let mut line = String::from_str("[main] I'll be doing my own stuff while waiting for the child ");
    push_decimal(&mut line, child as i64);
    line.append(" termination...");
    line
}

/// The message the parent stops with when `waitpid` fails with the error
/// whose text is `error`.
pub fn wait_failure_message(error: String) -> (message: String)
    ensures
        message@ == "[main] waitpid() failed: "@ + error@,
{
    let message = String::from_str("[main] waitpid() failed: ");
    message.concat(error.as_str())
}

/// The report printed once the child has changed state, where `described`
/// is the `{:?}` text of its status.
pub fn exit_report(described: String) -> (report: String)
    ensures
        report@ == "[main] Child exited with status "@ + described@ + "."@,
{
    let report = String::from_str("[main] Child exited with status ");
    let report = report.concat(described.as_str());
    report.concat(".")
}

/// The parent's next move after a `waitpid` poll.  It keeps waiting exactly
/// while the child is still alive, stops watching on any reported state
/// change, and gives up when the call fails.  The report shows the status as
/// `{:?}` does, the status's own signal named as nix names that number
/// (see `status_debug_text`); the failure
/// message ends with nix's text of the error (see `errno_text`).
pub fn watch_step(outcome: &WaitOutcome) -> (action: WatchAction)
    ensures
        match *outcome {
            WaitOutcome::Status(ChildStatus::StillAlive) => action matches WatchAction::KeepWaiting {
                note,
                pause_ms,
            } && note@ == "[main] Child is still alive, do my own stuff while waiting."@
                && pause_ms == POLL_PAUSE_MS,
            WaitOutcome::Status(status) => action matches WatchAction::Finish { report, farewell }
                && (exists|name: Option<Seq<char>>|
                report@ == "[main] Child exited with status "@ + #[trigger] status_text_named(
                    status,
                    name,
                ) + "."@) && (status_unnamed(status) ==> report@
                == "[main] Child exited with status "@ + status_text_named(status, None) + "."@)
                && (portable_status_name(status) is Some ==> report@
                == "[main] Child exited with status "@ + status_text_named(
                    status,
                    portable_status_name(status),
                ) + "."@) && (exists|text: Seq<char>|
                #[trigger] status_text_admissible(status, text) && report@
                == "[main] Child exited with status "@ + text + "."@) && farewell@
                == "[main] Bye Bye!"@,
            WaitOutcome::Failed(code) => action matches WatchAction::Abort { message } && (exists|
                name: Seq<char>,
                desc: Seq<char>,
            | message@ == "[main] waitpid() failed: "@ + name + ": "@ + desc) && (code == 0
                ==> message@ == "[main] waitpid() failed: "@ + "UnknownErrno: Unknown errno"@) && (
            portable_errno_text(code) is Some ==> message@ == "[main] waitpid() failed: "@
                + portable_errno_text(code)->0),
        },
{
    match *outcome {
        WaitOutcome::Status(ChildStatus::StillAlive) => WatchAction::KeepWaiting {
            note: String::from_str("[main] Child is still alive, do my own stuff while waiting."),
            pause_ms: POLL_PAUSE_MS,
        },
        WaitOutcome::Status(status) => WatchAction::Finish {
            report: exit_report(status_debug_text(&status)),
            farewell: String::from_str("[main] Bye Bye!"),
        },
        WaitOutcome::Failed(code) => {
            let error = errno_text(code);
            let message = wait_failure_message(error);
            proof {
                let (name, desc) = choose|name: Seq<char>, desc: Seq<char>|
                    error@ == name + ": "@ + desc;
                assert(message@ =~= "[main] waitpid() failed: "@ + name + ": "@ + desc);
            }
            WatchAction::Abort { message }
        },
    }
}

/// What the `SIGCHLD` handler writes after its `waitpid`, and the status it
/// exits with.  Plain `&'static str` lines: the handler must not allocate.
pub struct SigchldReaction {
    pub first: &'static str,
    pub second: Option<&'static str>,
    pub exit_status: i32,
}

/// The handler's reaction to its `waitpid` call: when the call reaped a
/// child it reports the exit, says goodbye and exits with 0; when the call
/// failed it reports the failure and exits with 1.
pub fn sigchld_reaction(reaped: bool) -> (r: SigchldReaction)
    ensures
        r.exit_status == (if reaped { 0i32 } else { 1i32 }),
        reaped ==> r.first@ == "[main] Child exited.\n"@ && (r.second matches Some(s) && s@
            == "[main] Bye Bye!\n"@),
        !reaped ==> r.first@ == "[main] waitpid() failed.\n"@ && r.second is None,
{
    if reaped {
        SigchldReaction {
            first: "[main] Child exited.\n",
            second: Some("[main] Bye Bye!\n"),
            exit_status: 0,
        }
    } else {
        SigchldReaction { first: "[main] waitpid() failed.\n", second: None, exit_status: 1 }
    }
}

} // verus!
