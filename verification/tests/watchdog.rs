use grist::timeout_action::timed_out;

#[test]
fn work_is_late_only_past_the_limit() {
    assert!(!timed_out(0, 300));
    assert!(!timed_out(299, 300));
    assert!(!timed_out(300, 300));
    assert!(timed_out(301, 300));
    assert!(timed_out(u64::MAX, 300));
    assert!(!timed_out(0, 0));
    assert!(timed_out(1, 0));
    assert!(!timed_out(u64::MAX, u64::MAX));
}
