use statiq::temporal::{SqlDate, SqlDateTime, SqlDateTimeOffset, SqlTime};

#[test]
fn time_text_has_seven_fraction_digits() {
    let t = SqlTime::from_hms_nano(13, 5, 9, 123_456_789).unwrap();
    assert_eq!(t.to_text(), "13:05:09.1234567");
    let z = SqlTime::from_hms_nano(0, 0, 0, 0).unwrap();
    assert_eq!(z.to_text(), "00:00:00.0000000");
}

#[test]
fn leap_second_shows_as_sixty() {
    let t = SqlTime::from_hms_nano(23, 59, 59, 1_500_000_000).unwrap();
    assert_eq!(t.to_text(), "23:59:60.5000000");
}

#[test]
fn invalid_times_are_rejected() {
    assert!(SqlTime::from_hms_nano(24, 0, 0, 0).is_none());
    assert!(SqlTime::from_hms_nano(12, 60, 0, 0).is_none());
    assert!(SqlTime::from_hms_nano(12, 0, 30, 1_000_000_000).is_none());
    assert!(SqlTime::from_hms_nano(23, 59, 59, 2_000_000_000).is_none());
}

#[test]
fn datetime_text_joins_date_and_time() {
    let d = SqlDate::from_ymd(2024, 2, 29).unwrap();
    let t = SqlTime::from_hms_nano(8, 30, 0, 100).unwrap();
    assert_eq!(SqlDateTime::new(d, t).to_text(), "2024-02-29 08:30:00.0000001");
    assert!(SqlDate::from_ymd(2023, 2, 29).is_none());
}

#[test]
fn offset_text_is_signed_hours_and_minutes() {
    let d = SqlDate::from_ymd(2024, 1, 15).unwrap();
    let t = SqlTime::from_hms_nano(10, 0, 0, 0).unwrap();
    let east = SqlDateTimeOffset::new(d, t, 19_800).unwrap();
    assert_eq!(east.to_text(), "2024-01-15 10:00:00.0000000 +05:30");
    let west = SqlDateTimeOffset::new(d, t, -3_600).unwrap();
    assert_eq!(west.to_text(), "2024-01-15 10:00:00.0000000 -01:00");
    let rounded = SqlDateTimeOffset::new(d, t, 59).unwrap();
    assert_eq!(rounded.to_text(), "2024-01-15 10:00:00.0000000 +00:01");
    assert!(SqlDateTimeOffset::new(d, t, 86_400).is_none());
    assert!(SqlDateTimeOffset::new(d, t, -86_400).is_none());
}
