use cgmemtime::metrics::ChildProcessResult;
use cgmemtime::metrics::exit_code;
use cgmemtime::metrics::exited;
use cgmemtime::metrics::harness_exit_code;

#[test]
fn immediate_zero_exit_times_are_nonnegative() {
    // A command that exits immediately with status 0: everything reported is
    // zero, and in particular nothing is negative.
    let r = ChildProcessResult::from_wait(0, 0, 0, 0, 0, 0, 0);
    assert_eq!(r.child_user_ns, 0);
    assert_eq!(r.child_sys_ns, 0);
    assert_eq!(r.child_wall_ns, 0);
    assert_eq!(r.child_rss_highwater, 0);
    assert_eq!(r.cg_rss_highwater, 0);
}

#[test]
fn times_convert_seconds_and_microseconds() {
    let r = ChildProcessResult::from_wait(1, 500, 2, 250_000, 3, 7, 9);
    assert_eq!(r.child_user_ns, 1_000_500_000);
    assert_eq!(r.child_sys_ns, 2_250_000_000);
    assert_eq!(r.child_wall_ns, 7);
    assert_eq!(r.child_rss_highwater, 3 * 1024);
    assert_eq!(r.cg_rss_highwater, 9);
}

#[test]
fn negative_accounting_values_clamp_to_zero() {
    let r = ChildProcessResult::from_wait(-1, -1, -2, -2, -3, 5, 6);
    assert_eq!(r.child_user_ns, 0);
    assert_eq!(r.child_sys_ns, 0);
    assert_eq!(r.child_wall_ns, 5);
    assert_eq!(r.child_rss_highwater, 0);
}

#[test]
fn huge_rss_saturates() {
    let r = ChildProcessResult::from_wait(0, 0, 0, 0, i64::MAX, 0, 0);
    assert_eq!(r.child_rss_highwater, u64::MAX);
}

#[test]
fn huge_times_saturate() {
    let r = ChildProcessResult::from_wait(i64::MAX, 999_999, 0, 0, 0, 0, 0);
    assert_eq!(r.child_user_ns, u64::MAX);
}

#[test]
fn kib_getters_divide_by_1024() {
    let r = ChildProcessResult::from_wait(0, 0, 0, 0, 3, 0, 10_000);
    assert_eq!(r.child_rss_kib(), 3);
    assert_eq!(r.cg_rss_kib(), 9);
}

#[test]
fn wait_status_decoding() {
    // 127 << 8: normal termination with exit status 127.
    assert!(exited(127 << 8));
    assert_eq!(exit_code(127 << 8), 127);
    assert_eq!(harness_exit_code(127 << 8), 127);
    // Normal termination with status 0.
    assert!(exited(0));
    assert_eq!(harness_exit_code(0), 0);
    // Termination by signal 9: not a normal exit, not a failed start.
    assert!(!exited(9));
    assert_eq!(harness_exit_code(9), 0);
    // Normal termination with some other status.
    assert_eq!(harness_exit_code(3 << 8), 0);
}
