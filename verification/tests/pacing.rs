use clone_cgroup::pacing::{CGROUP_PARENT_IDLE_MS, CHILD_LINGER_MS, CHILD_SETTLE_MS, WASM_PARENT_IDLE_MS};

#[test]
fn pauses_of_the_programs() {
    assert_eq!(CGROUP_PARENT_IDLE_MS, 500);
    assert_eq!(WASM_PARENT_IDLE_MS, 1000);
    assert_eq!(CHILD_SETTLE_MS, 2000);
    assert_eq!(CHILD_LINGER_MS, 1000);
}
