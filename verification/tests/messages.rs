use clone_cgroup::messages::{child_greeting, entry_note, parent_banner, procs_readback, resume_note, Side};

#[test]
fn banners_carry_the_ids() {
    assert_eq!(parent_banner(100, 31887), "[main] I am the parent process with pid: 100 and I cloned a child with PID 31887.");
    assert_eq!(child_greeting(1, 0), "[clone child] Hello from child process with pid: 1 and parent pid:0");
    assert_eq!(resume_note(31887), "SIGUSR1 child_pid.as_raw() = 31887");
}

#[test]
fn readback_lines() {
    let data = "31887\n".to_string();
    assert_eq!(procs_readback(Side::Parent, &data), "[main] read cgroup.procs get 31887\n");
    assert_eq!(procs_readback(Side::Child, &data), "[clone child ] read cgroup.procs get 31887\n");
    assert_eq!(entry_note(&"1".to_string()), "pid_string is 1");
}
