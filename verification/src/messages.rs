//! Progress lines that carry process ids or file contents.

use vstd::prelude::*;
use vstd::string::StringExecFns;
use crate::decimal::{decimal, push_decimal};

verus! {

/// Which of the two processes prints a line.
#[derive(Clone, Copy, Debug, PartialEq, Eq, Structural)]
pub enum Side {
    Parent,
    Child,
}

/// The line the parent prints once `clone` returned the child's id.
pub fn parent_banner(parent: i32, child: i32) -> (line: String)
    ensures
        line@ == "[main] I am the parent process with pid: "@ + decimal(parent as int)
            + " and I cloned a child with PID "@ + decimal(child as int) + "."@,
{
    let mut line = String::from_str("[main] I am the parent process with pid: ");
    push_decimal(&mut line, parent as i64);
    line.append(" and I cloned a child with PID ");
    push_decimal(&mut line, child as i64);
    line.append(".");
    line
}

/// The first line the child prints, with its own id and its parent's.
pub fn child_greeting(pid: i32, parent: i32) -> (line: String)
    ensures
        line@ == "[clone child] Hello from child process with pid: "@ + decimal(pid as int)
            + " and parent pid:"@ + decimal(parent as int),
{
    let mut line = String::from_str("[clone child] Hello from child process with pid: ");
    push_decimal(&mut line, pid as i64);
    line.append(" and parent pid:");
    push_decimal(&mut line, parent as i64);
    line
}

/// The prefix of the line that shows what `cgroup.procs` holds after the
/// write.
pub open spec fn readback_prefix(side: Side) -> Seq<char> {
    match side {
        Side::Parent => "[main] read cgroup.procs get "@,
        Side::Child => "[clone child ] read cgroup.procs get "@,
    }
}

/// The line that shows the contents `data` read back from `cgroup.procs`.
pub fn procs_readback(side: Side, data: &String) -> (line: String)
    ensures
        line@ == readback_prefix(side) + data@,
{
    let line = match side {
        Side::Parent => String::from_str("[main] read cgroup.procs get "),
        Side::Child => String::from_str("[clone child ] read cgroup.procs get "),
    };
    line.concat(data.as_str())
}

/// The line that shows the entry about to be written into `cgroup.procs`.
pub fn entry_note(entry: &String) -> (line: String)
    ensures
        line@ == "pid_string is "@ + entry@,
{
    let line = String::from_str("pid_string is ");
    line.concat(entry.as_str())
}

/// The line the parent prints before it signals the waiting child.
pub fn resume_note(child: i32) -> (line: String)
    ensures
        line@ == "SIGUSR1 child_pid.as_raw() = "@ + decimal(child as int),
{
    let mut line = String::from_str("SIGUSR1 child_pid.as_raw() = ");
    push_decimal(&mut line, child as i64);
    line
}

} // verus!
