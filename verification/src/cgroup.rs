//! The cgroup v2 side: the entry written into `cgroup.procs` and the shell
//! commands that set up and inspect the hierarchy.

use vstd::prelude::*;
use vstd::string::StringExecFns;
use crate::decimal::{decimal, decimal_text, decimal_value, is_canonical_decimal};

verus! {

/// The `cgroup.procs` file of the memory-limited group `foo`; writing a
/// process id into it moves that process into the group.
pub open spec fn spec_foo_procs_path() -> Seq<char> {
    "/sys/fs/cgroup/foo/cgroup.procs"@
}

/// The path of the `cgroup.procs` file of the group `foo`.
pub fn foo_procs_path() -> (path: String)
    ensures
        path@ == spec_foo_procs_path(),
{
    String::from_str("/sys/fs/cgroup/foo/cgroup.procs")
}

/// The text written into `cgroup.procs` to move the process `pid`: its
/// decimal number.
pub fn procs_entry(pid: i32) -> (entry: String)
    ensures
        entry@ == decimal(pid as int),
        is_canonical_decimal(entry@),
        decimal_value(entry@) == pid,
{
    decimal_text(pid as i64)
}

/// The external commands the programs run.
#[derive(Clone, Copy, Debug, PartialEq, Eq, Structural)]
pub enum SetupCommand {
    /// Show the memory limit of the group `foo`.
    ReadMemoryMax,
    /// Mount the cgroup v2 hierarchy in the child's mount namespace.
    MountCgroup2,
    /// Create the group `cg1`.
    MakeGroupCg1,
    /// List the files of the group `cg1`.
    ListGroupCg1,
    /// Show the `cgroup.procs` file of the group `foo`.
    ListFooProcs,
    /// Create the group `foo`.
    MakeGroupFoo,
    /// Show the network links the child sees.
    ShowLinks,
}

/// A command line: the program, its arguments, and whether the caller waits
/// for the command and collects its output (`Command::output`) or only
/// starts it (`Command::spawn`).
pub struct CommandLine {
    pub program: String,
    pub args: Vec<String>,
    pub collect_output: bool,
}

/// The program each command runs.
pub open spec fn command_program(c: SetupCommand) -> Seq<char> {
    match c {
        SetupCommand::ReadMemoryMax => "cat"@,
        SetupCommand::MountCgroup2 => "mount"@,
        SetupCommand::MakeGroupCg1 => "mkdir"@,
        SetupCommand::ListGroupCg1 => "ls"@,
        SetupCommand::ListFooProcs => "ls"@,
        SetupCommand::MakeGroupFoo => "mkdir"@,
        SetupCommand::ShowLinks => "ip"@,
    }
}

/// The arguments of each command.
pub open spec fn command_args(c: SetupCommand) -> Seq<Seq<char>> {
    match c {
        SetupCommand::ReadMemoryMax => seq!["/sys/fs/cgroup/foo/memory.max"@],
        SetupCommand::MountCgroup2 => seq!["-t"@, "cgroup2"@, "none"@, "/sys/fs/cgroup"@],
        SetupCommand::MakeGroupCg1 => seq!["-p"@, "/sys/fs/cgroup/cg1"@],
        SetupCommand::ListGroupCg1 => seq!["/sys/fs/cgroup/cg1"@],
        SetupCommand::ListFooProcs => seq!["-la"@, "/sys/fs/cgroup/foo/cgroup.procs"@],
        SetupCommand::MakeGroupFoo => seq!["-p"@, "/sys/fs/cgroup/foo"@],
        SetupCommand::ShowLinks => seq!["link"@],
    }
}

/// Whether the caller waits for the command's output; `ip link` is only
/// started.
pub open spec fn command_collects_output(c: SetupCommand) -> bool {
    c != SetupCommand::ShowLinks
}

fn args_of(items: &[&str]) -> (args: Vec<String>)
    ensures
        args.len() == items@.len(),
        forall|i: int| 0 <= i < items@.len() ==> #[trigger] args@[i]@ == items@[i]@,
{
    let mut args: Vec<String> = Vec::new();
    let mut i: usize = 0;
    while i < items.len()
        invariant
            i <= items@.len(),
            args.len() == i,
            forall|j: int| 0 <= j < i ==> #[trigger] args@[j]@ == items@[j]@,
        decreases items@.len() - i,
    {
        args.push(String::from_str(items[i]));
        i = i + 1;
    }
    args
}

/// The command line of `c`.
pub fn command_line(c: SetupCommand) -> (line: CommandLine)
    ensures
        line.program@ == command_program(c),
        line.args.deep_view() == command_args(c),
        line.collect_output == command_collects_output(c),
{
    let (program, args) = match c {
        SetupCommand::ReadMemoryMax => ("cat", args_of(&["/sys/fs/cgroup/foo/memory.max"])),
        SetupCommand::MountCgroup2 => ("mount", args_of(&["-t", "cgroup2", "none", "/sys/fs/cgroup"])),
        SetupCommand::MakeGroupCg1 => ("mkdir", args_of(&["-p", "/sys/fs/cgroup/cg1"])),
        SetupCommand::ListGroupCg1 => ("ls", args_of(&["/sys/fs/cgroup/cg1"])),
        SetupCommand::ListFooProcs => ("ls", args_of(&["-la", "/sys/fs/cgroup/foo/cgroup.procs"])),
        SetupCommand::MakeGroupFoo => ("mkdir", args_of(&["-p", "/sys/fs/cgroup/foo"])),
        SetupCommand::ShowLinks => ("ip", args_of(&["link"])),
    };
    proof {
        assert(args.deep_view() =~= command_args(c));
    }
    CommandLine {
        program: String::from_str(program),
        args,
        collect_output: match c {
            SetupCommand::ShowLinks => false,
            _ => true,
        },
    }
}

/// Limit, in bytes, the group `foo` is configured with in `memory.max`.
pub const FOO_MEMORY_MAX: usize = 4096;

/// Number of `i32` elements in the array the child allocates once it runs
/// inside the group `foo`.
pub const PROBE_ARRAY_LEN: usize = 600;

/// The zero-filled array the child allocates to show that it may use memory
/// inside the group `foo`.  It is allocated in one piece of exactly
/// `PROBE_ARRAY_LEN` elements (`vec![0; n]`), 2,400 bytes of `i32`s.
pub fn probe_array() -> (array: Vec<i32>)
    ensures
        array.len() == PROBE_ARRAY_LEN,
        forall|i: int| 0 <= i < array.len() ==> #[trigger] array@[i] == 0,
{
    vec![0i32; PROBE_ARRAY_LEN]
}

/// Law: the elements of the probe array, 4 bytes each, take fewer bytes than
/// the memory limit of the group `foo`.
pub proof fn lemma_probe_fits_memory_max()
    ensures
        PROBE_ARRAY_LEN * 4 < FOO_MEMORY_MAX,
{
}

} // verus!
