use weather_notifier::clock::{format_timestamp, get_current_time, now, ClockTime};

fn at(year: i32, month: u32, day: u32, hour: u32, minute: u32, second: u32) -> ClockTime {
    ClockTime::new(year, month, day, hour, minute, second).unwrap()
}

#[test]
fn timestamp_is_zero_padded() {
    assert_eq!(format_timestamp(&at(2024, 1, 5, 12, 3, 0)), "2024-01-05 12:03:00");
    assert_eq!(format_timestamp(&at(1999, 12, 31, 23, 59, 59)), "1999-12-31 23:59:59");
    assert_eq!(format_timestamp(&at(2000, 10, 10, 0, 0, 0)), "2000-10-10 00:00:00");
}

#[test]
fn timestamp_of_short_and_long_years() {
    assert_eq!(format_timestamp(&at(0, 1, 1, 0, 0, 0)), "0000-01-01 00:00:00");
    assert_eq!(format_timestamp(&at(33, 4, 3, 9, 8, 7)), "0033-04-03 09:08:07");
    assert_eq!(format_timestamp(&at(9999, 1, 1, 1, 1, 1)), "9999-01-01 01:01:01");
    assert_eq!(format_timestamp(&at(10000, 1, 1, 1, 1, 1)), "+10000-01-01 01:01:01");
    assert_eq!(format_timestamp(&at(-1, 1, 1, 1, 1, 1)), "-0001-01-01 01:01:01");
    assert_eq!(format_timestamp(&at(-12345, 6, 7, 8, 9, 10)), "-12345-06-07 08:09:10");
    assert_eq!(format_timestamp(&at(i32::MAX, 1, 1, 0, 0, 0)), "+2147483647-01-01 00:00:00");
    assert_eq!(format_timestamp(&at(i32::MIN, 1, 1, 0, 0, 0)), "-2147483648-01-01 00:00:00");
}

#[test]
fn timestamp_is_what_chrono_writes() {
    let cases = [
        (2024, 2, 29, 13, 45, 6),
        (1970, 1, 1, 0, 0, 0),
        (999, 9, 9, 9, 9, 9),
        (0, 12, 31, 23, 59, 59),
        (9999, 12, 31, 23, 59, 59),
        (10000, 1, 1, 0, 0, 0),
        (-1, 3, 4, 5, 6, 7),
        (-9999, 3, 4, 5, 6, 7),
        (123456, 7, 8, 9, 10, 11),
        (-262143, 1, 1, 0, 0, 0),
        (262142, 12, 31, 23, 59, 59),
    ];
    for (year, month, day, hour, minute, second) in cases {
        let theirs = chrono::NaiveDate::from_ymd_opt(year, month, day)
            .unwrap()
            .and_hms_opt(hour, minute, second)
            .unwrap()
            .format("%Y-%m-%d %H:%M:%S")
            .to_string();
        assert_eq!(format_timestamp(&at(year, month, day, hour, minute, second)), theirs);
    }
}

#[test]
fn clock_time_keeps_its_fields() {
    let t = at(2024, 1, 5, 12, 3, 9);
    assert_eq!(
        (t.year(), t.month(), t.day(), t.hour(), t.minute(), t.second()),
        (2024, 1, 5, 12, 3, 9)
    );
}

#[test]
fn clock_time_refuses_fields_out_of_range() {
    assert!(ClockTime::new(2024, 0, 5, 12, 3, 0).is_none());
    assert!(ClockTime::new(2024, 13, 5, 12, 3, 0).is_none());
    assert!(ClockTime::new(2024, 1, 0, 12, 3, 0).is_none());
    assert!(ClockTime::new(2024, 1, 32, 12, 3, 0).is_none());
    assert!(ClockTime::new(2024, 1, 5, 24, 3, 0).is_none());
    assert!(ClockTime::new(2024, 1, 5, 12, 60, 0).is_none());
    assert!(ClockTime::new(2024, 1, 5, 12, 3, 60).is_none());
    assert!(ClockTime::new(2024, 12, 31, 23, 59, 59).is_some());
    assert!(ClockTime::new(2024, 1, 1, 0, 0, 0).is_some());
}

#[test]
fn now_is_a_valid_reading_of_the_local_clock() {
    let before = chrono::Local::now().naive_local();
    let t = now();
    let after = chrono::Local::now().naive_local();
    assert!(ClockTime::new(t.year(), t.month(), t.day(), t.hour(), t.minute(), t.second()).is_some());
    let read = chrono::NaiveDate::from_ymd_opt(t.year(), t.month(), t.day())
        .unwrap()
        .and_hms_opt(t.hour(), t.minute(), t.second())
        .unwrap();
    assert!(before - chrono::Duration::seconds(1) <= read, "{} before {}", read, before);
    assert!(read <= after, "{} after {}", read, after);
}

#[test]
fn current_time_has_the_shape_of_a_timestamp() {
    let text = get_current_time();
    let bytes = text.as_bytes();
    assert_eq!(bytes.len(), 19);
    for (i, b) in bytes.iter().enumerate() {
        match i {
            4 | 7 => assert_eq!(*b, b'-'),
            10 => assert_eq!(*b, b' '),
            13 | 16 => assert_eq!(*b, b':'),
            _ => assert!(b.is_ascii_digit()),
        }
    }
    assert!(chrono::NaiveDateTime::parse_from_str(&text, "%Y-%m-%d %H:%M:%S").is_ok());
}
