//! What `waitpid` reports about the child, and the text `{:?}` gives it.

use vstd::prelude::*;
use vstd::string::StringExecFns;
use crate::decimal::{decimal, push_decimal};

verus! {

/// A state change of a child process as `waitpid` reports it, with process
/// ids and signals as their raw numbers.
#[derive(Clone, Copy, Debug, PartialEq, Eq, Structural)]
pub enum ChildStatus {
    /// The child exited with the given exit code.
    Exited(i32, i32),
    /// The child was killed by the given signal; the flag tells whether it
    /// dumped core.
    Signaled(i32, i32, bool),
    /// The child was stopped by the given signal.
    Stopped(i32, i32),
    /// A traced child stopped on a ptrace event (signal, event number).
    PtraceEvent(i32, i32, i32),
    /// A traced child stopped at a system call.
    PtraceSyscall(i32),
    /// A stopped child was resumed.
    Continued(i32),
    /// No child has changed state yet.
    StillAlive,
}

/// The names of the signals whose number is the same on every target this
/// library builds for: nix offers `clone` on Linux and Android only, and
/// libc gives these signals these numbers on each of their architectures
/// (others, such as `SIGCHLD` or `SIGUSR1`, differ between them).
pub open spec fn portable_signal_name(signo: i32) -> Option<Seq<char>> {
    if signo == 1 {
        Some("SIGHUP"@)
    } else if signo == 2 {
        Some("SIGINT"@)
    } else if signo == 3 {
        Some("SIGQUIT"@)
    } else if signo == 4 {
        Some("SIGILL"@)
    } else if signo == 5 {
        Some("SIGTRAP"@)
    } else if signo == 6 {
        Some("SIGABRT"@)
    } else if signo == 8 {
        Some("SIGFPE"@)
    } else if signo == 9 {
        Some("SIGKILL"@)
    } else if signo == 11 {
        Some("SIGSEGV"@)
    } else if signo == 13 {
        Some("SIGPIPE"@)
    } else if signo == 14 {
        Some("SIGALRM"@)
    } else if signo == 15 {
        Some("SIGTERM"@)
    } else {
        None
    }
}

/// What nix can answer for the signal numbered `signo` on the targets this
/// library builds for (Linux and Android, where nix offers `clone`).  libc
/// numbers most signals one way on the common architectures, another on
/// MIPS and a third on SPARC; each set holds the answers of the three
/// (`None` where nix has no signal of that number).  The signals of
/// `portable_signal_name` have one answer, and numbers outside 1 to 31 have
/// none on any of them.
pub open spec fn signal_name_outcomes(signo: i32) -> Set<Option<Seq<char>>> {
    if portable_signal_name(signo) is Some {
        set![portable_signal_name(signo)]
    } else if signo == 7 {
        set![Some("SIGBUS"@), None]
    } else if signo == 10 {
        set![Some("SIGUSR1"@), Some("SIGBUS"@)]
    } else if signo == 12 {
        set![Some("SIGUSR2"@), Some("SIGSYS"@)]
    } else if signo == 16 {
        set![Some("SIGSTKFLT"@), Some("SIGUSR1"@), Some("SIGURG"@)]
    } else if signo == 17 {
        set![Some("SIGCHLD"@), Some("SIGUSR2"@), Some("SIGSTOP"@)]
    } else if signo == 18 {
        set![Some("SIGCONT"@), Some("SIGCHLD"@), Some("SIGTSTP"@)]
    } else if signo == 19 {
        set![Some("SIGSTOP"@), Some("SIGPWR"@), Some("SIGCONT"@)]
    } else if signo == 20 {
        set![Some("SIGTSTP"@), Some("SIGWINCH"@), Some("SIGCHLD"@)]
    } else if signo == 21 {
        set![Some("SIGTTIN"@), Some("SIGURG"@)]
    } else if signo == 22 {
        set![Some("SIGTTOU"@), Some("SIGIO"@)]
    } else if signo == 23 {
        set![Some("SIGURG"@), Some("SIGSTOP"@), Some("SIGIO"@)]
    } else if signo == 24 {
        set![Some("SIGXCPU"@), Some("SIGTSTP"@)]
    } else if signo == 25 {
        set![Some("SIGXFSZ"@), Some("SIGCONT"@)]
    } else if signo == 26 {
        set![Some("SIGVTALRM"@), Some("SIGTTIN"@)]
    } else if signo == 27 {
        set![Some("SIGPROF"@), Some("SIGTTOU"@)]
    } else if signo == 28 {
        set![Some("SIGWINCH"@), Some("SIGVTALRM"@)]
    } else if signo == 29 {
        set![Some("SIGIO"@), Some("SIGPROF"@), Some("SIGPWR"@)]
    } else if signo == 30 {
        set![Some("SIGPWR"@), Some("SIGXCPU"@), Some("SIGUSR1"@)]
    } else if signo == 31 {
        set![Some("SIGSYS"@), Some("SIGXFSZ"@), Some("SIGUSR2"@)]
    } else {
        set![None]
    }
}

/// Law: every number from 1 to 31 but 7 names a signal on every target
/// this library builds for, so a status carrying such a number is always
/// written with a signal name, never with the bare number.
pub proof fn lemma_known_signals_are_named(signo: i32)
    requires
        1 <= signo <= 31,
        signo != 7,
    ensures
        !signal_name_outcomes(signo).contains(None),
{
}

/// Law: the name of a signal that has the same number everywhere (such as
/// `SIGKILL`) is never written for another number; a child killed by any
/// other signal is not reported as killed by it.
pub proof fn lemma_portable_names_are_exclusive(signo: i32, other: i32, name: Seq<char>)
    requires
        signal_name_outcomes(signo).contains(Some(name)),
        portable_signal_name(other) == Some(name),
    ensures
        signo == other,
{
    reveal_strlit("SIGHUP");
    reveal_strlit("SIGINT");
    reveal_strlit("SIGQUIT");
    reveal_strlit("SIGILL");
    reveal_strlit("SIGTRAP");
    reveal_strlit("SIGABRT");
    reveal_strlit("SIGBUS");
    reveal_strlit("SIGFPE");
    reveal_strlit("SIGKILL");
    reveal_strlit("SIGUSR1");
    reveal_strlit("SIGSEGV");
    reveal_strlit("SIGUSR2");
    reveal_strlit("SIGPIPE");
    reveal_strlit("SIGALRM");
    reveal_strlit("SIGTERM");
    reveal_strlit("SIGSTKFLT");
    reveal_strlit("SIGCHLD");
    reveal_strlit("SIGCONT");
    reveal_strlit("SIGSTOP");
    reveal_strlit("SIGTSTP");
    reveal_strlit("SIGTTIN");
    reveal_strlit("SIGTTOU");
    reveal_strlit("SIGURG");
    reveal_strlit("SIGXCPU");
    reveal_strlit("SIGXFSZ");
    reveal_strlit("SIGVTALRM");
    reveal_strlit("SIGPROF");
    reveal_strlit("SIGWINCH");
    reveal_strlit("SIGIO");
    reveal_strlit("SIGPWR");
    reveal_strlit("SIGSYS");
    // The names all begin with `SIG`; they differ in length or in one of
    // the characters after it.
    let tail = (name[3], name[4], name[5], name[6]);
}

/// `nix::sys::signal::Signal::try_from(signo)`, then `Signal::as_str`: the
/// constant name of the signal, such as `SIGKILL`, or `None` where nix
/// refuses the number.  nix takes the numbers from libc: the answer is one
/// of `signal_name_outcomes(signo)`, and exactly that one for the signals of
/// `portable_signal_name` and for numbers below 1; which of the
/// architectures' answers it is, is left unsaid.
#[verifier::external_body]
fn signal_name(signo: i32) -> (name: Option<String>)
    ensures
        signo <= 0 ==> name is None,
        portable_signal_name(signo) is Some ==> name_view(name) == portable_signal_name(signo),
        signal_name_outcomes(signo).contains(name_view(name)),
{
    match nix::sys::signal::Signal::try_from(signo) {
        Ok(signal) => Some(signal.as_str().to_string()),
        Err(_) => None,
    }
}

/// The signal a status carries, where it carries one.
pub open spec fn status_signal(status: ChildStatus) -> Option<i32> {
    match status {
        ChildStatus::Signaled(_, signo, _) => Some(signo),
        ChildStatus::Stopped(_, signo) => Some(signo),
        ChildStatus::PtraceEvent(_, signo, _) => Some(signo),
        _ => None,
    }
}

/// The name every machine gives the signal a status carries, where there is
/// one.
pub open spec fn portable_status_name(status: ChildStatus) -> Option<Seq<char>> {
    match status_signal(status) {
        Some(signo) => portable_signal_name(signo),
        None => None,
    }
}

/// Whether a status is written without any signal name: it carries no
/// signal, or one numbered below 1, which no signal is.
pub open spec fn status_unnamed(status: ChildStatus) -> bool {
    match status_signal(status) {
        Some(signo) => signo <= 0,
        None => true,
    }
}

/// Text of a signal: its name where one is known, else its number.
pub open spec fn signal_text(signo: i32, name: Option<Seq<char>>) -> Seq<char> {
    match name {
        Some(n) => n,
        None => decimal(signo as int),
    }
}

/// `{:?}` of a process id: `Pid(1234)`.
pub open spec fn pid_text(pid: i32) -> Seq<char> {
    "Pid("@ + decimal(pid as int) + ")"@
}

/// `{:?}` of a boolean.
pub open spec fn bool_text(b: bool) -> Seq<char> {
    if b {
        "true"@
    } else {
        "false"@
    }
}

/// `{:?}` of a status, with `name` the name of the signal it carries.
pub open spec fn status_text_named(status: ChildStatus, name: Option<Seq<char>>) -> Seq<char> {
    match status {
        ChildStatus::Exited(pid, code) => "Exited("@ + pid_text(pid) + ", "@ + decimal(code as int)
            + ")"@,
        ChildStatus::Signaled(pid, signo, core) => "Signaled("@ + pid_text(pid) + ", "@
            + signal_text(signo, name) + ", "@ + bool_text(core) + ")"@,
        ChildStatus::Stopped(pid, signo) => "Stopped("@ + pid_text(pid) + ", "@ + signal_text(
            signo,
            name,
        ) + ")"@,
        ChildStatus::PtraceEvent(pid, signo, event) => "PtraceEvent("@ + pid_text(pid) + ", "@
            + signal_text(signo, name) + ", "@ + decimal(event as int) + ")"@,
        ChildStatus::PtraceSyscall(pid) => "PtraceSyscall("@ + pid_text(pid) + ")"@,
        ChildStatus::Continued(pid) => "Continued("@ + pid_text(pid) + ")"@,
        ChildStatus::StillAlive => "StillAlive"@,
    }
}

fn push_pid(text: &mut String, pid: i32)
    ensures
        final(text)@ == old(text)@ + pid_text(pid),
{
    text.append("Pid(");
    push_decimal(text, pid as i64);
    text.append(")");
    proof {
        assert(text@ =~= old(text)@ + pid_text(pid));
    }
}

fn push_signal(text: &mut String, signo: i32, name: &Option<String>)
    ensures
        final(text)@ == old(text)@ + signal_text(signo, name_view(*name)),
{
    match name {
        Some(n) => text.append(n.as_str()),
        None => push_decimal(text, signo as i64),
    }
}

/// The name of an optional signal name, as a sequence of characters.
pub open spec fn name_view(name: Option<String>) -> Option<Seq<char>> {
    match name {
        Some(n) => Some(n@),
        None => None,
    }
}

/// `{:?}` of `status`, where `name` is the name of the signal the status
/// carries (`None` writes the signal's number).
pub fn describe_status(status: &ChildStatus, name: Option<String>) -> (text: String)
    ensures
        text@ == status_text_named(*status, name_view(name)),
{
    let mut text = String::new();
    match *status {
        ChildStatus::Exited(pid, code) => {
            text.append("Exited(");
            push_pid(&mut text, pid);
            text.append(", ");
            push_decimal(&mut text, code as i64);
            text.append(")");
        },
        ChildStatus::Signaled(pid, signo, core) => {
            text.append("Signaled(");
            push_pid(&mut text, pid);
            text.append(", ");
            push_signal(&mut text, signo, &name);
            text.append(", ");
            if core {
                text.append("true");
            } else {
                text.append("false");
            }
            text.append(")");
        },
        ChildStatus::Stopped(pid, signo) => {
            text.append("Stopped(");
            push_pid(&mut text, pid);
            text.append(", ");
            push_signal(&mut text, signo, &name);
            text.append(")");
        },
        ChildStatus::PtraceEvent(pid, signo, event) => {
            text.append("PtraceEvent(");
            push_pid(&mut text, pid);
            text.append(", ");
            push_signal(&mut text, signo, &name);
            text.append(", ");
            push_decimal(&mut text, event as i64);
            text.append(")");
        },
        ChildStatus::PtraceSyscall(pid) => {
            text.append("PtraceSyscall(");
            push_pid(&mut text, pid);
            text.append(")");
        },
        ChildStatus::Continued(pid) => {
            text.append("Continued(");
            push_pid(&mut text, pid);
            text.append(")");
        },
        ChildStatus::StillAlive => {
            text.append("StillAlive");
        },
    }
    proof {
        assert(text@ =~= status_text_named(*status, name_view(name)));
    }
    text
}

/// Whether `text` is the `{:?}` text of `status` with its signal written as
/// nix may answer for that signal's number (see `signal_name_outcomes`).
pub open spec fn status_text_admissible(status: ChildStatus, text: Seq<char>) -> bool {
    match status_signal(status) {
        Some(signo) => exists|name: Option<Seq<char>>|
            #[trigger] signal_name_outcomes(signo).contains(name) && text == status_text_named(
                status,
                name,
            ),
        None => text == status_text_named(status, None),
    }
}

/// `{:?}` of `status` as nix prints a `WaitStatus`: signals by the names
/// nix gives them on this machine.  A status that carries no signal reads
/// exactly as `status_text_named` with no name, and one whose signal has
/// the same number everywhere (such as `SIGKILL`) with that signal's name.
/// Any other signal is written with the name nix returned on this machine
/// for that very number, one of `signal_name_outcomes`, or with its number
/// where nix knows none.
pub fn status_debug_text(status: &ChildStatus) -> (text: String)
    ensures
        status_unnamed(*status) ==> text@ == status_text_named(*status, None),
        portable_status_name(*status) is Some ==> text@ == status_text_named(
            *status,
            portable_status_name(*status),
        ),
        exists|name: Option<Seq<char>>| text@ == #[trigger] status_text_named(*status, name),
        status_text_admissible(*status, text@),
{
    let name = match *status {
        ChildStatus::Signaled(_, signo, _) => signal_name(signo),
        ChildStatus::Stopped(_, signo) => signal_name(signo),
        ChildStatus::PtraceEvent(_, signo, _) => signal_name(signo),
        _ => None,
    };
    describe_status(status, name)
}

} // verus!
