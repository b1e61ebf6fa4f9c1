use clone_cgroup::decimal::decimal_text;
use clone_cgroup::cgroup::procs_entry;

#[test]
fn decimal_text_matches_display() {
    for n in [0i64, 7, 9, 10, 42, 99, 100, 31887, -1, -10, -31887, i32::MIN as i64, i32::MAX as i64, i64::MAX, i64::MIN] {
        assert_eq!(decimal_text(n), n.to_string());
    }
}

#[test]
fn decimal_text_reads_back() {
    for n in [0i64, 5, 120, -4096, 2147483647, -2147483648] {
        let text = decimal_text(n);
        assert_eq!(text.parse::<i64>().unwrap(), n);
    }
}

#[test]
fn procs_entry_is_pid_string() {
    assert_eq!(procs_entry(31887), "31887");
    assert_eq!(procs_entry(1), "1");
    assert_eq!(procs_entry(0), "0");
    assert_eq!(procs_entry(-1), "-1");
}
