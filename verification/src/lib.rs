//! Verified core of a small toolkit that clones a Linux process into fresh
//! namespaces, moves it into a cgroup v2 group and watches it terminate.
//!
//! The library holds what the programs compute and decide: the decimal text
//! written to `cgroup.procs`, the namespace flags handed to `clone`, the
//! commands run while probing the cgroup hierarchy, the messages printed along
//! the way, and the decisions taken on each result of `waitpid`.  Everything
//! that touches the operating system stays with the caller.

pub mod decimal;
pub mod clone_setup;
pub mod child_status;
pub mod watch;
pub mod cgroup;
pub mod messages;
pub mod socket;
pub mod pacing;
