use cgmemtime::scan::find_sub;
use cgmemtime::scan::memory_controller_listed;
use cgmemtime::scan::parse_peak_bytes;
use cgmemtime::scan::session_scope_of;

#[test]
fn find_sub_first_occurrence() {
    assert_eq!(find_sub("abcabc", "bc"), Some(1));
    assert_eq!(find_sub("abcabc", "zz"), None);
    assert_eq!(find_sub("abc", ""), Some(0));
    assert_eq!(find_sub("", "a"), None);
}

#[test]
fn controllers_listing_with_trailing_controller() {
    assert!(memory_controller_listed("cpuset cpu io memory hugetlb pids"));
}

#[test]
fn controllers_listing_with_nul_separator() {
    assert!(memory_controller_listed("io memory\0cpu"));
}

#[test]
fn controllers_listing_without_memory() {
    assert!(!memory_controller_listed("cpuset cpu io pids"));
}

#[test]
fn controllers_listing_memory_at_very_end_is_not_listed() {
    // The harness looks for "memory" followed by a separator; a bare
    // trailing "memory" does not qualify.
    assert!(!memory_controller_listed("cpuset cpu io memory"));
}

#[test]
fn session_scope_extracted_from_record() {
    let record = "0::/user.slice/user-1000.slice/user@1000.service/app.slice/t.scope\n";
    let scope = session_scope_of(record).unwrap();
    assert_eq!(scope, "user.slice/user-1000.slice/user@1000.service");
}

#[test]
fn session_scope_absent_without_service_mark() {
    let record = "0::/user.slice/user-1000.slice/session-2.scope\n";
    assert!(session_scope_of(record).is_none());
}

#[test]
fn session_scope_absent_without_slash() {
    assert!(session_scope_of("no separators here").is_none());
}

#[test]
fn session_scope_absent_when_service_ends_before_slash() {
    // The first ".service" ends before the first '/' begins.
    assert!(session_scope_of("a.serviceXX/b").is_none());
}

#[test]
fn peak_counter_plain_number() {
    assert_eq!(parse_peak_bytes("42"), Some(42));
}

#[test]
fn peak_counter_with_surrounding_whitespace() {
    assert_eq!(parse_peak_bytes(" 123456\n"), Some(123456));
}

#[test]
fn peak_counter_zero() {
    assert_eq!(parse_peak_bytes("0\n"), Some(0));
}

#[test]
fn peak_counter_empty_is_rejected() {
    assert_eq!(parse_peak_bytes(""), None);
    assert_eq!(parse_peak_bytes(" \n"), None);
}

#[test]
fn peak_counter_malformed_is_rejected() {
    assert_eq!(parse_peak_bytes("12a3"), None);
    assert_eq!(parse_peak_bytes("-5"), None);
    assert_eq!(parse_peak_bytes("4 2"), None);
}

#[test]
fn peak_counter_at_limit() {
    assert_eq!(parse_peak_bytes("18446744073709551615"), Some(u64::MAX));
}

#[test]
fn peak_counter_overflow_is_rejected() {
    assert_eq!(parse_peak_bytes("18446744073709551616"), None);
    assert_eq!(parse_peak_bytes("99999999999999999999999999"), None);
}
