use bvreader::timecode::BVTime;
use std::time::SystemTime;

#[test]
fn test_parse_timecode_to_unix_time() {
        let timecode = BVTime::from_str("19700101000000000000").unwrap();
        let timestamp = timecode.to_system_time().unwrap();
        let expected: SystemTime = SystemTime::UNIX_EPOCH + std::time::Duration::new(0, 0);
        let cmpd = timestamp.cmp(&expected);
        assert_eq!(std::cmp::Ordering::Equal, cmpd, "PARSED TIME: {:?}, EXPECTED: {:?}", timestamp, expected);
}

#[test]
fn test_convert_timecode_between_unix_time() {
        let timecode = BVTime::from_str("19990311140312003012").unwrap();
        let timestamp = timecode.to_system_time().unwrap();
        let expected = BVTime::from_system_time(timestamp).unwrap();
        assert_eq!(timecode, expected);
}

#[test]
fn timecode_length_is_checked() {
    assert!(BVTime::from_str("1999031114031200301").is_none());
    assert!(BVTime::from_str("199903111403120030120").is_none());
    assert!(BVTime::new("19990311140312003012".to_string()).is_some());
}

#[test]
fn timecode_seconds_exact() {
    let t = BVTime::from_str("19710201010203000004").unwrap();
    assert_eq!(t.timecode_seconds(), Some((31556926 + 2629743 + 3600 + 120 + 3, 4)));
    let t = BVTime::from_str("19700101000000000000").unwrap();
    assert_eq!(t.timecode_seconds(), Some((0, 0)));
}

#[test]
fn timecode_rejects_bad_fields() {
    assert_eq!(BVTime::from_str("19690101000000000000").unwrap().timecode_seconds(), None);
    assert_eq!(BVTime::from_str("19700001000000000000").unwrap().timecode_seconds(), None);
    assert_eq!(BVTime::from_str("19700100000000000000").unwrap().timecode_seconds(), None);
    assert_eq!(BVTime::from_str("1970010100000000000x").unwrap().timecode_seconds(), None);
    assert!(BVTime::from_str("19690101000000000000").unwrap().to_system_time().is_none());
}

#[test]
fn timecode_from_epoch_parts() {
    let t = BVTime::from_epoch_parts(31556926 + 2629743 + 86400 + 3600 + 120 + 3, 4).unwrap();
    assert_eq!(t.timecode, "19710202010203000004");
    assert!(BVTime::from_epoch_parts(0, 1_000_000).is_none());
    assert!(BVTime::from_epoch_parts(31556926 * 8030, 0).is_none());
    assert_eq!(BVTime::from_epoch_parts(31556926 * 8029, 0).unwrap().timecode, "99990101000000000000");
}

#[test]
fn system_time_before_epoch_has_no_timecode() {
    let before = SystemTime::UNIX_EPOCH - std::time::Duration::from_secs(1);
    assert!(BVTime::from_system_time(before).is_none());
}

#[test]
fn timecode_length_counts_bytes() {
    let twenty_bytes = format!("\u{b5}{}", "0".repeat(18));
    assert_eq!(twenty_bytes.len(), 20);
    assert!(BVTime::from_str(&twenty_bytes).is_some());
    let twenty_chars = format!("\u{b5}{}", "0".repeat(19));
    assert_eq!(twenty_chars.chars().count(), 20);
    assert!(BVTime::from_str(&twenty_chars).is_none());
}
