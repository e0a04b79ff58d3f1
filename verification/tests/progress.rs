use rocksdb_utils_lookup::progress::{
    elapsed, is_notification_due, progress_message, NOTIFY_INTERVAL_NANOS, POLL_INTERVAL_MILLIS,
};

#[test]
fn the_cadence_is_a_tenth_of_a_second_and_a_second() {
    assert_eq!(POLL_INTERVAL_MILLIS, 100);
    assert_eq!(NOTIFY_INTERVAL_NANOS, 1_000_000_000);
}

#[test]
fn elapsed_is_the_difference_of_two_readings() {
    assert_eq!(elapsed(0, 0), 0);
    assert_eq!(elapsed(5, 12), 7);
    assert_eq!(elapsed(1_000, 1_000_000_000), 999_999_000);
    assert_eq!(elapsed(0, u64::MAX), u64::MAX);
}

#[test]
fn a_reading_that_is_not_later_counts_as_no_time() {
    assert_eq!(elapsed(12, 5), 0);
    assert_eq!(elapsed(u64::MAX, 0), 0);
}

#[test]
fn a_line_is_due_after_more_than_a_second() {
    assert!(!is_notification_due(0, 0));
    assert!(!is_notification_due(0, 999_999_999));
    assert!(!is_notification_due(0, 1_000_000_000));
    assert!(is_notification_due(0, 1_000_000_001));
    assert!(is_notification_due(500, 1_000_000_501));
    assert!(!is_notification_due(500, 1_000_000_500));
    assert!(!is_notification_due(2_000_000_000, 0));
}

#[test]
fn progress_line_has_prefix_and_elapsed_time() {
    assert_eq!(
        progress_message("msg", 1_500_000_000),
        "msgstill waiting for compaction (since 1.5s)"
    );
    assert_eq!(
        progress_message("import: ", 250_000_000),
        "import: still waiting for compaction (since 250ms)"
    );
    assert_eq!(progress_message("", 0), "still waiting for compaction (since 0ns)");
    assert_eq!(
        progress_message("x", 61_000_000_001),
        "xstill waiting for compaction (since 61.000000001s)"
    );
}
