use circe::numfmt::format_int;
use circe::numfmt::format_tenths;
use circe::time::Timestamp;
use circe::time::parse_timestamp;

#[test]
fn parse_accepts_the_provider_shape() {
    assert_eq!(
        parse_timestamp("2023-01-02T03:04"),
        Some(Timestamp { year: 2023, month: 1, day: 2, hour: 3, minute: 4 })
    );
    assert_eq!(
        parse_timestamp("1999-12-31T23:59"),
        Some(Timestamp { year: 1999, month: 12, day: 31, hour: 23, minute: 59 })
    );
}

#[test]
fn parse_rejects_other_shapes() {
    assert_eq!(parse_timestamp(""), None);
    assert_eq!(parse_timestamp("2023-1-2T3:4"), None);
    assert_eq!(parse_timestamp("2023-01-02 03:04"), None);
    assert_eq!(parse_timestamp("2023-01-02T03:04:05"), None);
    assert_eq!(parse_timestamp("2023/01/02T03:04"), None);
    assert_eq!(parse_timestamp("abcd-01-02T03:04"), None);
}

#[test]
fn parse_rejects_impossible_calendar_times() {
    assert_eq!(parse_timestamp("2023-02-30T00:00"), None);
    assert_eq!(parse_timestamp("2023-02-29T12:00"), None);
    assert_eq!(parse_timestamp("2023-00-10T00:00"), None);
    assert_eq!(parse_timestamp("2023-13-10T00:00"), None);
    assert_eq!(parse_timestamp("2023-04-31T00:00"), None);
    assert_eq!(parse_timestamp("2023-04-00T00:00"), None);
    assert_eq!(parse_timestamp("2023-05-10T24:00"), None);
    assert_eq!(parse_timestamp("2023-05-10T10:60"), None);
}

#[test]
fn parse_knows_leap_years() {
    assert!(parse_timestamp("2024-02-29T12:00").is_some());
    assert!(parse_timestamp("2000-02-29T12:00").is_some());
    assert_eq!(parse_timestamp("1900-02-29T12:00"), None);
}

#[test]
fn format_display_is_day_month_hour_minute() {
    let t = Timestamp { year: 2023, month: 1, day: 2, hour: 3, minute: 4 };
    assert_eq!(t.format_display(), "02/01 03:04");
    let t2 = Timestamp { year: 2024, month: 12, day: 31, hour: 23, minute: 59 };
    assert_eq!(t2.format_display(), "31/12 23:59");
}

#[test]
fn chronological_order_is_lexicographic() {
    let a = Timestamp { year: 2023, month: 5, day: 1, hour: 10, minute: 0 };
    let b = Timestamp { year: 2023, month: 5, day: 1, hour: 11, minute: 0 };
    let c = Timestamp { year: 2024, month: 1, day: 1, hour: 0, minute: 0 };
    assert!(a.le(&b));
    assert!(!b.le(&a));
    assert!(b.le(&c));
    assert!(a.le(&a));
}

#[test]
fn tenths_are_written_with_one_decimal() {
    assert_eq!(format_tenths(123), "12.3");
    assert_eq!(format_tenths(0), "0.0");
    assert_eq!(format_tenths(7), "0.7");
    assert_eq!(format_tenths(-5), "-0.5");
    assert_eq!(format_tenths(-123), "-12.3");
    assert_eq!(format_tenths(1000), "100.0");
}

#[test]
fn whole_numbers_are_written_in_decimal() {
    assert_eq!(format_int(0), "0");
    assert_eq!(format_int(95), "95");
    assert_eq!(format_int(-7), "-7");
    assert_eq!(format_int(1234), "1234");
}
