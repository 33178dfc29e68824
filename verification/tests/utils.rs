use chrono::{TimeZone, Utc};
use gitstat::utils::{
    format_time, format_timestamp, CommitTime, EARLIEST_TIMESTAMP, LATEST_TIMESTAMP,
};

#[test]
fn commit_time_is_shifted_by_the_offset() {
    assert_eq!(format_time(&CommitTime { seconds: 1000, offset_minutes: 60 }), "4600");
    assert_eq!(format_time(&CommitTime { seconds: 1000, offset_minutes: 0 }), "1000");
    assert_eq!(format_time(&CommitTime { seconds: 1000, offset_minutes: -60 }), "-2600");
    assert_eq!(format_time(&CommitTime { seconds: 0, offset_minutes: 0 }), "0");
    assert_eq!(
        format_time(&CommitTime { seconds: 1_700_000_000, offset_minutes: 330 }),
        "1700019800"
    );
}

#[test]
fn commit_time_does_not_wrap_at_the_ends() {
    assert_eq!(
        format_time(&CommitTime { seconds: i64::MAX, offset_minutes: i32::MAX }),
        (i64::MAX as i128 + i32::MAX as i128 * 60).to_string()
    );
    assert_eq!(
        format_time(&CommitTime { seconds: i64::MIN, offset_minutes: i32::MIN }),
        (i64::MIN as i128 + i32::MIN as i128 * 60).to_string()
    );
}

#[test]
fn calendar_text_of_known_moments() {
    assert_eq!(format_timestamp(0), "01 Jan 1970 00:00:00");
    assert_eq!(format_timestamp(1431648000), "15 May 2015 00:00:00");
    assert_eq!(format_timestamp(951782399), "28 Feb 2000 23:59:59");
    assert_eq!(format_timestamp(951782400), "29 Feb 2000 00:00:00");
    assert_eq!(format_timestamp(-1), "31 Dec 1969 23:59:59");
    assert_eq!(format_timestamp(1700000000), "14 Nov 2023 22:13:20");
}

#[test]
fn calendar_text_reaches_both_ends_of_the_range() {
    assert_eq!(format_timestamp(EARLIEST_TIMESTAMP), "01 Jan -262143 00:00:00");
    assert_eq!(format_timestamp(LATEST_TIMESTAMP), "31 Dec +262142 23:59:59");
}

#[test]
fn the_range_of_calendar_texts_is_that_of_the_calendar() {
    assert!(Utc.timestamp_opt(EARLIEST_TIMESTAMP, 0).single().is_some());
    assert!(Utc.timestamp_opt(EARLIEST_TIMESTAMP - 1, 0).single().is_none());
    assert!(Utc.timestamp_opt(LATEST_TIMESTAMP, 0).single().is_some());
    assert!(Utc.timestamp_opt(LATEST_TIMESTAMP + 1, 0).single().is_none());
    assert!(Utc.timestamp_opt(i64::MIN, 0).single().is_none());
    assert!(Utc.timestamp_opt(i64::MAX, 0).single().is_none());
}
