use github_export::timestamp::Timestamp;

#[test]
fn epoch_is_written_in_rfc3339() {
    let t = Timestamp::from_unix(0, 0).unwrap();
    assert_eq!(t.to_rfc3339(), "1970-01-01T00:00:00+00:00");
    assert_eq!(t.date_ymd(), "1970-01-01");
    assert_eq!(Timestamp::unix_epoch(), t);
}

#[test]
fn parse_reads_rfc3339() {
    let t = Timestamp::parse_rfc3339("2025-11-01T09:15:00Z").unwrap();
    assert_eq!(t.secs(), 1_761_988_500);
    assert_eq!(t.nanos(), 0);
    assert_eq!(t.date_ymd(), "2025-11-01");
    assert_eq!(t.to_rfc3339(), "2025-11-01T09:15:00+00:00");
}

#[test]
fn parse_rejects_other_text() {
    assert!(Timestamp::parse_rfc3339("yesterday").is_none());
    assert!(Timestamp::parse_rfc3339("").is_none());
}

#[test]
fn from_unix_rejects_out_of_range() {
    assert!(Timestamp::from_unix(i64::MAX, 0).is_none());
    assert!(Timestamp::from_unix(0, 2_000_000_000).is_none());
    assert!(Timestamp::from_unix(253_402_300_799, 999_999_999).is_some());
}

#[test]
fn now_is_after_2024() {
    assert!(Timestamp::now().secs() > 1_704_067_200);
}

#[test]
fn now_is_after_the_epoch_with_a_proper_subsecond_part() {
    let t = Timestamp::now();
    assert!(t.secs() > 1_600_000_000);
    assert!(t.nanos() < 1_000_000_000);
}
