//! How long the programs pause, in milliseconds.

use vstd::prelude::*;

verus! {

/// Pause between two rounds of the parent's own work while the child of
/// `clone_child_cgroup` runs.
pub const CGROUP_PARENT_IDLE_MS: u64 = 500;

/// Pause between two rounds of the parent's own work once it has served the
/// WebAssembly module.
pub const WASM_PARENT_IDLE_MS: u64 = 1000;

/// Pause of the child of `clone_child_cgroup` after it has inspected the
/// hierarchy and before it moves itself into the group `foo`.
pub const CHILD_SETTLE_MS: u64 = 2000;

/// Pause of the child of `clone_child_cgroup` after it has started
/// `ip link`, so that the command's output appears before the child exits.
pub const CHILD_LINGER_MS: u64 = 1000;

} // verus!
