# clone_cgroup

Clone a Linux process into new user, PID, network, mount and cgroup
namespaces, move it into the cgroup v2 group `foo` (whose `memory.max` is set
to 4096 bytes beforehand, as root), and watch it run or get killed.

- `src/` is the verified library (Verus): decimal process ids for
  `cgroup.procs`, the namespace flags, the setup commands, the progress
  messages, the text of a child's wait status, and the parent's decisions on
  each `waitpid` result and on `SIGCHLD`.
- `app/` runs the three programs (`clone_child_cgroup`,
  `clone_wait_signal_pass_wasm`, `clone_waitpid_cgroup_memory`, chosen by the
  first argument) and does all the system calls.
- `tests/` exercises the library on concrete values.

Usage (the cgroup programs need root and the group `foo` prepared as above):

```bash
sudo ./clone_cgroup clone_child_cgroup
sudo ./clone_cgroup clone_wait_signal_pass_wasm
sudo ./clone_cgroup clone_waitpid_cgroup_memory
```

The library builds for Linux and Android only, the targets where nix offers
`clone`.
