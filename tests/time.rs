use chrome_cache_parser::error::CCPError;
use chrome_cache_parser::time::{UtcDateTime, WindowsEpochMicroseconds};

#[test]
fn test_windows_epoch_microseconds() {
    let timestamp = WindowsEpochMicroseconds(13_360_111_021_811_283);
    let date = timestamp.into_datetime_utc().unwrap();

    assert_eq!(date.year(), 2024);
    assert_eq!(date.month(), 5);
    assert_eq!(date.day(), 13);
    assert_eq!(date.hour(), 21);
    assert_eq!(date.second(), 1);
}

#[test]
fn test_windows_epoch_from_0_input_returns_error() {
    let timestamp = WindowsEpochMicroseconds(0);
    let date = timestamp.into_datetime_utc();
    assert!(date.is_err());
}

#[test]
fn time_fixture_has_exact_minute_and_nanoseconds() {
    let date = WindowsEpochMicroseconds(13_360_111_021_811_283).into_datetime_utc().unwrap();
    assert_eq!(date.minute(), 57);
    assert_eq!(date.nanosecond(), 811_283_000);
}

#[test]
fn time_underflow_reports_raw_value() {
    match WindowsEpochMicroseconds(5).into_datetime_utc() {
        Err(CCPError::InvalidTimestamp(raw)) => assert_eq!(raw, 5),
        other => panic!("unexpected {:?}", other),
    }
}

#[test]
fn time_unix_epoch_is_first_of_1970() {
    let date = WindowsEpochMicroseconds(11_644_473_600_000_000).into_datetime_utc().unwrap();
    assert_eq!((date.year(), date.month(), date.day()), (1970, 1, 1));
    assert_eq!((date.hour(), date.minute(), date.second(), date.nanosecond()), (0, 0, 0, 0));
}

#[test]
fn time_past_calendar_range_fails() {
    let date = WindowsEpochMicroseconds(u64::MAX).into_datetime_utc();
    assert!(matches!(date, Err(CCPError::InvalidTimestamp(v)) if v == u64::MAX));
}

#[test]
fn time_last_representable_day() {
    let day_micros: u64 = 86_400 * 1_000_000;
    let raw = 11_644_473_600_000_000 + 95_026_236 * day_micros + day_micros - 1;
    let date = WindowsEpochMicroseconds(raw).into_datetime_utc().unwrap();
    assert_eq!((date.year(), date.month(), date.day()), (262_142, 12, 31));
    assert!(WindowsEpochMicroseconds(raw + 1).into_datetime_utc().is_err());
}

#[test]
fn utc_from_parts_splits_time_of_day() {
    let d = UtcDateTime::from_parts(1_715_637_421_811_283, 2024, 5, 13);
    assert_eq!((d.year(), d.month(), d.day()), (2024, 5, 13));
    assert_eq!((d.hour(), d.minute(), d.second()), (21, 57, 1));
    assert_eq!(d.nanosecond(), 811_283_000);
}
