//! How the child is cloned: the namespaces it gets and the size of its stack.

use vstd::prelude::*;

verus! {

/// Size in bytes of the stack the parent hands to `clone` for the child.
pub const CHILD_STACK_SIZE: usize = 1024 * 1024;

/// Value of `CLONE_NEWNS` on Linux: a new mount namespace.
pub open spec fn spec_clone_newns() -> i32 {
    0x0002_0000
}

/// Value of `CLONE_NEWCGROUP` on Linux: a new cgroup namespace.
pub open spec fn spec_clone_newcgroup() -> i32 {
    0x0200_0000
}

/// Value of `CLONE_NEWUSER` on Linux: a new user namespace.
pub open spec fn spec_clone_newuser() -> i32 {
    0x1000_0000
}

/// Value of `CLONE_NEWPID` on Linux: a new PID namespace.
pub open spec fn spec_clone_newpid() -> i32 {
    0x2000_0000
}

/// Value of `CLONE_NEWNET` on Linux: a new network namespace.
pub open spec fn spec_clone_newnet() -> i32 {
    0x4000_0000
}

/// The namespace flags of the cloned child: new user, PID, network, mount
/// and cgroup namespaces.
pub open spec fn spec_child_namespaces() -> i32 {
    spec_clone_newuser() | spec_clone_newpid() | spec_clone_newnet() | spec_clone_newns()
        | spec_clone_newcgroup()
}

/// `nix::sched::CloneFlags::CLONE_NEWNS.bits()`: nix defines the flag as
/// `libc::CLONE_NEWNS`, which libc sets to `0x20000` on Linux.
#[verifier::external_body]
fn clone_newns_bits() -> (bits: i32)
    ensures
        bits == spec_clone_newns(),
{
    nix::sched::CloneFlags::CLONE_NEWNS.bits()
}

/// `nix::sched::CloneFlags::CLONE_NEWCGROUP.bits()`: nix defines the flag as
/// `libc::CLONE_NEWCGROUP`, which libc sets to `0x02000000` on Linux.
#[verifier::external_body]
fn clone_newcgroup_bits() -> (bits: i32)
    ensures
        bits == spec_clone_newcgroup(),
{
    nix::sched::CloneFlags::CLONE_NEWCGROUP.bits()
}

/// `nix::sched::CloneFlags::CLONE_NEWUSER.bits()`: nix defines the flag as
/// `libc::CLONE_NEWUSER`, which libc sets to `0x10000000` on Linux.
#[verifier::external_body]
fn clone_newuser_bits() -> (bits: i32)
    ensures
        bits == spec_clone_newuser(),
{
    nix::sched::CloneFlags::CLONE_NEWUSER.bits()
}

/// `nix::sched::CloneFlags::CLONE_NEWPID.bits()`: nix defines the flag as
/// `libc::CLONE_NEWPID`, which libc sets to `0x20000000` on Linux.
#[verifier::external_body]
fn clone_newpid_bits() -> (bits: i32)
    ensures
        bits == spec_clone_newpid(),
{
    nix::sched::CloneFlags::CLONE_NEWPID.bits()
}

/// `nix::sched::CloneFlags::CLONE_NEWNET.bits()`: nix defines the flag as
/// `libc::CLONE_NEWNET`, which libc sets to `0x40000000` on Linux.
#[verifier::external_body]
fn clone_newnet_bits() -> (bits: i32)
    ensures
        bits == spec_clone_newnet(),
{
    nix::sched::CloneFlags::CLONE_NEWNET.bits()
}

/// The `clone` flags of the child: the union of the user, PID, network,
/// mount and cgroup namespace flags, and no other bit.
pub fn child_namespaces() -> (flags: i32)
    ensures
        flags == spec_child_namespaces(),
        flags == 0x7202_0000,
{
    let flags = clone_newuser_bits() | clone_newpid_bits() | clone_newnet_bits()
        | clone_newns_bits() | clone_newcgroup_bits();
    assert(spec_child_namespaces() == 0x7202_0000) by (bit_vector);
    flags
}

/// Law: the child gets each of the five namespaces, and `clone` is asked for
/// nothing else (no shared memory, files or signal handlers).
pub proof fn lemma_child_namespaces_exact(bit: u32)
    requires
        bit < 32,
    ensures
        (spec_child_namespaces() & (1i32 << bit) != 0) <==> (bit == 17 || bit == 25 || bit == 28
            || bit == 29 || bit == 30),
{
    assert(spec_child_namespaces() == 0x7202_0000) by (bit_vector);
    assert(bit < 32 ==> ((0x7202_0000i32 & (1i32 << bit) != 0) <==> (bit == 17 || bit == 25
        || bit == 28 || bit == 29 || bit == 30))) by (bit_vector);
}

} // verus!
