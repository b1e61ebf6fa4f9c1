use clone_cgroup::clone_setup::{child_namespaces, CHILD_STACK_SIZE};
use nix::sched::CloneFlags;

#[test]
fn namespaces_match_nix_flags() {
    let flags = CloneFlags::CLONE_NEWUSER
        | CloneFlags::CLONE_NEWPID
        | CloneFlags::CLONE_NEWNET
        | CloneFlags::CLONE_NEWNS
        | CloneFlags::CLONE_NEWCGROUP;
    assert_eq!(child_namespaces(), flags.bits());
    assert_eq!(child_namespaces(), 0x7202_0000);
}

#[test]
fn namespaces_share_nothing() {
    let bits = child_namespaces();
    for shared in [CloneFlags::CLONE_VM, CloneFlags::CLONE_FILES, CloneFlags::CLONE_SIGHAND, CloneFlags::CLONE_THREAD, CloneFlags::CLONE_NEWUTS, CloneFlags::CLONE_NEWIPC] {
        assert_eq!(bits & shared.bits(), 0);
    }
}

#[test]
fn stack_is_one_mebibyte() {
    assert_eq!(CHILD_STACK_SIZE, 1024 * 1024);
}

#[test]
fn exactly_the_five_namespace_bits() {
    let bits = child_namespaces();
    for bit in 0..32u32 {
        let set = bits & (1i32 << bit) != 0;
        assert_eq!(set, [17, 25, 28, 29, 30].contains(&bit), "bit {}", bit);
    }
}
