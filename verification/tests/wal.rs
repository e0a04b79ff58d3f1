use rocksdb_utils_lookup::wal::{has_wal_extension, is_empty_wal_file, DOT};

#[test]
fn log_segments_are_known_by_their_extension() {
    assert!(has_wal_extension(b"000123.log"));
    assert!(has_wal_extension(b"a.log"));
    assert!(has_wal_extension(b"archive.tar.log"));
    assert!(has_wal_extension(b"..log"));
}

#[test]
fn other_names_are_no_log_segments() {
    assert!(!has_wal_extension(b""));
    assert!(!has_wal_extension(b"log"));
    assert!(!has_wal_extension(b".log"));
    assert!(!has_wal_extension(b"LOG"));
    assert!(!has_wal_extension(b"000123.LOG"));
    assert!(!has_wal_extension(b"000123.sst"));
    assert!(!has_wal_extension(b"000123.log.old"));
    assert!(!has_wal_extension(b"000123.logs"));
    assert!(!has_wal_extension(b"000123log"));
    assert!(!has_wal_extension(b"000123.log."));
    assert!(!has_wal_extension(b"MANIFEST-000005"));
}

#[test]
fn names_that_are_not_text_are_judged_by_their_bytes() {
    assert!(has_wal_extension(&[0xff, 0xfe, b'.', b'l', b'o', b'g']));
    assert!(!has_wal_extension(&[b'a', b'.', b'l', b'o', 0xff]));
}

#[test]
fn the_dot_is_the_full_stop() {
    assert_eq!(DOT, b'.');
}

#[test]
fn only_empty_log_segments_are_removable() {
    assert!(is_empty_wal_file(b"000123.log", 0));
    assert!(!is_empty_wal_file(b"000123.log", 1));
    assert!(!is_empty_wal_file(b"000123.log", u64::MAX));
    assert!(!is_empty_wal_file(b"000123.sst", 0));
    assert!(!is_empty_wal_file(b".log", 0));
    assert!(!is_empty_wal_file(b"LOCK", 0));
}
