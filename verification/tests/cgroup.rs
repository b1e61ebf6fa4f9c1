use clone_cgroup::cgroup::{
    command_line, foo_procs_path, probe_array, SetupCommand, FOO_MEMORY_MAX, PROBE_ARRAY_LEN,
};

fn line(c: SetupCommand) -> (String, Vec<String>, bool) {
    let l = command_line(c);
    (l.program, l.args, l.collect_output)
}

#[test]
fn command_lines_are_exact() {
    let s = |v: &[&str]| v.iter().map(|a| a.to_string()).collect::<Vec<String>>();
    assert_eq!(line(SetupCommand::ReadMemoryMax), ("cat".to_string(), s(&["/sys/fs/cgroup/foo/memory.max"]), true));
    assert_eq!(line(SetupCommand::MountCgroup2), ("mount".to_string(), s(&["-t", "cgroup2", "none", "/sys/fs/cgroup"]), true));
    assert_eq!(line(SetupCommand::MakeGroupCg1), ("mkdir".to_string(), s(&["-p", "/sys/fs/cgroup/cg1"]), true));
    assert_eq!(line(SetupCommand::ListGroupCg1), ("ls".to_string(), s(&["/sys/fs/cgroup/cg1"]), true));
    assert_eq!(line(SetupCommand::ListFooProcs), ("ls".to_string(), s(&["-la", "/sys/fs/cgroup/foo/cgroup.procs"]), true));
    assert_eq!(line(SetupCommand::MakeGroupFoo), ("mkdir".to_string(), s(&["-p", "/sys/fs/cgroup/foo"]), true));
    assert_eq!(line(SetupCommand::ShowLinks), ("ip".to_string(), s(&["link"]), false));
}

#[test]
fn procs_path_of_group_foo() {
    assert_eq!(foo_procs_path(), "/sys/fs/cgroup/foo/cgroup.procs");
}

#[test]
fn probe_array_fits_the_limit() {
    let a = probe_array();
    assert_eq!(a.len(), 600);
    assert_eq!(a.capacity(), 600);
    assert!(a.iter().all(|x| *x == 0));
    assert!(PROBE_ARRAY_LEN * std::mem::size_of::<i32>() < FOO_MEMORY_MAX);
}
