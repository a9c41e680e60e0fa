use image_resize::timestamp::{
    parse_rfc3339, Timestamp, MAX_UNIX_NANOS, MIN_UNIX_NANOS, NANOS_PER_HOUR,
};

const MARCH_7_2026_03_00: i128 = 1_772_852_400_000_000_000;

#[test]
fn representable_range_matches_the_time_crate() {
    assert!(Timestamp::from_unix_nanos(MIN_UNIX_NANOS).is_some());
    assert!(Timestamp::from_unix_nanos(MAX_UNIX_NANOS).is_some());
    assert!(Timestamp::from_unix_nanos(MIN_UNIX_NANOS - 1).is_none());
    assert!(Timestamp::from_unix_nanos(MAX_UNIX_NANOS + 1).is_none());
    assert!(time::OffsetDateTime::from_unix_timestamp_nanos(MIN_UNIX_NANOS).is_ok());
    assert!(time::OffsetDateTime::from_unix_timestamp_nanos(MAX_UNIX_NANOS).is_ok());
    assert!(time::OffsetDateTime::from_unix_timestamp_nanos(MIN_UNIX_NANOS - 1).is_err());
    assert!(time::OffsetDateTime::from_unix_timestamp_nanos(MAX_UNIX_NANOS + 1).is_err());
}

#[test]
fn formats_and_parses_rfc3339() {
    let t = Timestamp::from_unix_nanos(MARCH_7_2026_03_00).unwrap();
    assert_eq!(t.format_rfc3339().unwrap(), "2026-03-07T03:00:00Z");
    assert_eq!(t.calendar_date(), (2026, 3, 7));
    assert_eq!(parse_rfc3339("2026-03-07T03:00:00Z"), Ok(MARCH_7_2026_03_00));
    assert_eq!(parse_rfc3339("2026-03-07T12:00:00+09:00"), Ok(MARCH_7_2026_03_00));
    assert!(parse_rfc3339("2026-03-07").is_err());
    let half = Timestamp::from_unix_nanos(MARCH_7_2026_03_00 + 500_000_000).unwrap();
    assert_eq!(half.format_rfc3339().unwrap(), "2026-03-07T03:00:00.5Z");
}

#[test]
fn years_before_zero_cannot_be_written() {
    let t = Timestamp::from_unix_nanos(MIN_UNIX_NANOS).unwrap();
    assert!(t.format_rfc3339().is_err());
    assert_eq!(t.calendar_date(), (-9999, 1, 1));
}

#[test]
fn adding_hours_stays_in_range() {
    let t = Timestamp::from_unix_nanos(MARCH_7_2026_03_00).unwrap();
    let later = t.checked_add_hours(12).unwrap();
    assert_eq!(later.unix_nanos(), MARCH_7_2026_03_00 + 12 * NANOS_PER_HOUR);
    assert_eq!(later.format_rfc3339().unwrap(), "2026-03-07T15:00:00Z");
    assert!(t.is_before(&later));
    let end = Timestamp::from_unix_nanos(MAX_UNIX_NANOS - NANOS_PER_HOUR).unwrap();
    assert!(end.checked_add_hours(1).is_some());
    assert!(end.checked_add_hours(2).is_none());
}

#[test]
fn the_clock_reads_a_current_time() {
    let now = Timestamp::now();
    assert!(now.calendar_date().0 >= 2024);
}

#[test]
fn written_times_read_back_as_the_same_instant() {
    let samples: [i128; 6] = [
        0,
        MARCH_7_2026_03_00,
        MARCH_7_2026_03_00 + 1,
        MARCH_7_2026_03_00 + 123_456_789,
        MAX_UNIX_NANOS,
        -62_167_219_200_000_000_000, // 0000-01-01T00:00:00Z
    ];
    for n in samples {
        let t = Timestamp::from_unix_nanos(n).unwrap();
        let text = t.format_rfc3339().unwrap();
        assert_eq!(parse_rfc3339(&text), Ok(n), "{text}");
    }
    let before_year_zero = Timestamp::from_unix_nanos(-62_167_219_200_000_000_001).unwrap();
    assert!(before_year_zero.format_rfc3339().is_err());
}
