use crabfin::utils::time::{
    datetime_to_unix_timestamp, format_duration, format_duration_ms, format_duration_ticks, format_iso8601,
    format_seconds, is_within_days, is_within_days_at, milliseconds_to_ticks, now_utc, parse_iso8601,
    relative_time, ticks_to_milliseconds, unix_timestamp_to_utc, utc_of_offset, UtcTime,
};

#[test]
fn test_format_duration() {
    assert_eq!(format_duration(chrono::Duration::seconds(30)), "30s");
    assert_eq!(format_duration(chrono::Duration::seconds(90)), "1m 30s");
    assert_eq!(format_duration(chrono::Duration::seconds(3661)), "1h 1m 1s");
}

#[test]
fn test_ticks_conversion() {
    assert_eq!(ticks_to_milliseconds(10_000), 1);
    assert_eq!(milliseconds_to_ticks(1), 10_000);
}

#[test]
fn format_seconds_drops_zero_units() {
    assert_eq!(format_seconds(0), "0s");
    assert_eq!(format_seconds(60), "1m");
    assert_eq!(format_seconds(3600), "1h");
    assert_eq!(format_seconds(3660), "1h 1m");
    assert_eq!(format_seconds(86400), "1d");
    assert_eq!(format_seconds(90061), "1d 1h");
    assert_eq!(format_seconds(-5), "-5s");
}

#[test]
fn format_from_milliseconds_and_ticks() {
    assert_eq!(format_duration_ms(90_500), "1m 30s");
    assert_eq!(format_duration_ticks(36_610_000_000), "1h 1m 1s");
}

#[test]
fn ticks_round_trip() {
    for ms in [0u64, 1, 999, 123_456] {
        assert_eq!(ticks_to_milliseconds(milliseconds_to_ticks(ms)), ms);
    }
}

#[test]
fn utc_time_order_and_shift() {
    let a = UtcTime { seconds: 100, nanos: 5 };
    let b = UtcTime { seconds: 100, nanos: 6 };
    assert!(b.is_after(&a));
    assert!(!a.is_after(&b));
    assert!(!a.is_after(&a));
    let c = a.plus_seconds(300);
    assert_eq!(c, UtcTime { seconds: 400, nanos: 5 });
}

#[test]
fn timestamps_and_iso8601() {
    let t = unix_timestamp_to_utc(1_431_648_000).unwrap();
    assert_eq!(datetime_to_unix_timestamp(t), 1_431_648_000);
    assert_eq!(format_iso8601(t), "2015-05-15T00:00:00+00:00");
    assert_eq!(parse_iso8601("2015-05-15T00:00:00Z"), Some(t));
    assert_eq!(parse_iso8601("1996-12-19T16:39:57-08:00"), Some(UtcTime { seconds: 851_042_397, nanos: 0 }));
    assert_eq!(parse_iso8601("yesterday"), None);
    assert_eq!(unix_timestamp_to_utc(i64::MAX), None);
    let now = UtcTime { seconds: 1_000_000, nanos: 0 };
    assert!(is_within_days_at(UtcTime { seconds: 1_000_000 - 86_399, nanos: 0 }, 1, now));
    assert!(!is_within_days_at(UtcTime { seconds: 1_000_000 - 86_400, nanos: 0 }, 1, now));
    assert!(is_within_days(now_utc(), 1));
}

#[test]
fn relative_times() {
    assert_eq!(relative_time(5).as_deref(), Some("Just now"));
    assert_eq!(relative_time(-30).as_deref(), Some("Just now"));
    assert_eq!(relative_time(60).as_deref(), Some("1 minute ago"));
    assert_eq!(relative_time(150).as_deref(), Some("2 minutes ago"));
    assert_eq!(relative_time(3600).as_deref(), Some("1 hour ago"));
    assert_eq!(relative_time(7300).as_deref(), Some("2 hours ago"));
    assert_eq!(relative_time(86400).as_deref(), Some("Yesterday"));
    assert_eq!(relative_time(3 * 86400).as_deref(), Some("3 days ago"));
    assert_eq!(relative_time(604800).as_deref(), Some("1 week ago"));
    assert_eq!(relative_time(3 * 604800).as_deref(), Some("3 weeks ago"));
    assert_eq!(relative_time(4 * 604800), None);
}

#[test]
fn within_days_accepts_any_day_count_a_delta_can_hold() {
    let now = now_utc();
    assert!(is_within_days(now, 1));
    assert!(!is_within_days(now, -1));
    assert!(!is_within_days(now, 0));
    // Far more days than the representable past: every representable instant is later.
    assert!(is_within_days(unix_timestamp_to_utc(-8_334_601_228_800).unwrap(), 106_751_991_167));
    // Far more days into the future than representable: no instant is later.
    assert!(!is_within_days(unix_timestamp_to_utc(8_210_266_876_799).unwrap(), -106_751_991_167));
}

#[test]
fn clock_offsets_become_instants() {
    let after = utc_of_offset(Ok(std::time::Duration::new(1_431_648_000, 250)));
    assert_eq!((after.seconds, after.nanos), (1_431_648_000, 250));
    let before = utc_of_offset(Err(std::time::Duration::new(10, 0)));
    assert_eq!((before.seconds, before.nanos), (-10, 0));
    let before_frac = utc_of_offset(Err(std::time::Duration::new(10, 250_000_000)));
    assert_eq!((before_frac.seconds, before_frac.nanos), (-11, 750_000_000));
    let far_past = utc_of_offset(Err(std::time::Duration::from_secs(9_000_000_000_000)));
    assert_eq!((far_past.seconds, far_past.nanos), (-8_334_601_228_800, 0));
    let far_future = utc_of_offset(Ok(std::time::Duration::from_secs(9_000_000_000_000)));
    assert_eq!((far_future.seconds, far_future.nanos), (8_210_266_876_799, 999_999_999));
    // chrono's first representable second is representable; the one before it is not.
    assert!(unix_timestamp_to_utc(-8_334_601_228_800).is_some());
    assert!(unix_timestamp_to_utc(-8_334_601_228_801).is_none());
    assert_eq!(format_iso8601(unix_timestamp_to_utc(-8_334_601_228_800).unwrap()), chrono::DateTime::from_timestamp(-8_334_601_228_800, 0).unwrap().to_rfc3339());
}
