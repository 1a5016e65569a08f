use chrono::{Datelike, NaiveDate, Timelike};
use console_logger::Timestamp;

const PATTERN: &str = "%Y-%m-%d %H:%M:%S.%3f";

fn stamp(year: i32, month: u32, day: u32, hour: u32, minute: u32, second: u32, nano: u32) -> Timestamp {
    Timestamp::new(year, month, day, hour, minute, second, nano).unwrap()
}

#[test]
fn render_example_instant() {
    let t = stamp(2024, 1, 1, 12, 0, 0, 123_000_000);
    assert_eq!(t.render(), "2024-01-01 12:00:00.123");
}

#[test]
fn render_pads_every_field_with_zeros() {
    let t = stamp(7, 2, 3, 4, 5, 6, 7_000_000);
    assert_eq!(t.render(), "0007-02-03 04:05:06.007");
}

#[test]
fn render_cuts_below_the_millisecond() {
    let t = stamp(1999, 12, 31, 23, 59, 59, 999_999_999);
    assert_eq!(t.render(), "1999-12-31 23:59:59.999");
    let t = stamp(2000, 1, 1, 0, 0, 0, 999_999);
    assert_eq!(t.render(), "2000-01-01 00:00:00.000");
}

#[test]
fn render_shows_a_leap_second_as_sixty() {
    let t = stamp(2016, 12, 31, 23, 59, 59, 1_500_000_000);
    assert_eq!(t.render(), "2016-12-31 23:59:60.500");
    let t = stamp(2015, 6, 30, 23, 59, 59, 1_999_999_999);
    assert_eq!(t.render(), "2015-06-30 23:59:60.999");
}

#[test]
fn render_year_outside_four_digits() {
    assert_eq!(stamp(0, 1, 1, 0, 0, 0, 0).render(), "0000-01-01 00:00:00.000");
    assert_eq!(stamp(9999, 12, 31, 0, 0, 0, 0).render(), "9999-12-31 00:00:00.000");
    assert_eq!(stamp(10000, 1, 1, 0, 0, 0, 0).render(), "+10000-01-01 00:00:00.000");
    assert_eq!(stamp(262142, 12, 31, 0, 0, 0, 0).render(), "+262142-12-31 00:00:00.000");
    assert_eq!(stamp(-1, 1, 1, 0, 0, 0, 0).render(), "-0001-01-01 00:00:00.000");
    assert_eq!(stamp(-12345, 1, 1, 0, 0, 0, 0).render(), "-12345-01-01 00:00:00.000");
    assert_eq!(stamp(-262143, 1, 1, 0, 0, 0, 0).render(), "-262143-01-01 00:00:00.000");
}

#[test]
fn render_of_a_clock_reading_agrees_with_its_own_format() {
    let samples = [
        NaiveDate::from_ymd_opt(2024, 2, 29).unwrap().and_hms_nano_opt(23, 59, 59, 999_999_999).unwrap(),
        NaiveDate::from_ymd_opt(1970, 1, 1).unwrap().and_hms_nano_opt(0, 0, 0, 0).unwrap(),
        NaiveDate::from_ymd_opt(-4, 2, 29).unwrap().and_hms_nano_opt(1, 2, 3, 4_000_000).unwrap(),
        NaiveDate::from_ymd_opt(2015, 6, 30).unwrap().and_hms_nano_opt(23, 59, 59, 1_000_000_000).unwrap(),
        chrono::Local::now().naive_local(),
    ];
    for t in samples.iter() {
        let ours = stamp(t.year(), t.month(), t.day(), t.hour(), t.minute(), t.second(), t.nanosecond());
        assert_eq!(ours.render(), t.format(PATTERN).to_string());
    }
}

#[test]
fn render_has_three_fraction_digits() {
    let nanos = [0, 1, 999_999, 1_000_000, 10_000_000, 100_000_000, 999_999_999, 1_999_999_999];
    for nano in nanos {
        let text = stamp(2024, 5, 6, 7, 8, 59, nano).render();
        assert_eq!(text.len(), 23);
        for (at, byte) in text.bytes().enumerate() {
            match at {
                4 | 7 => assert_eq!(byte, b'-'),
                10 => assert_eq!(byte, b' '),
                13 | 16 => assert_eq!(byte, b':'),
                19 => assert_eq!(byte, b'.'),
                _ => assert!(byte.is_ascii_digit()),
            }
        }
    }
}

#[test]
fn new_keeps_the_fields() {
    let t = stamp(-5, 12, 31, 23, 59, 59, 1_999_999_999);
    assert_eq!(t.year(), -5);
    assert_eq!(t.month(), 12);
    assert_eq!(t.day(), 31);
    assert_eq!(t.hour(), 23);
    assert_eq!(t.minute(), 59);
    assert_eq!(t.second(), 59);
    assert_eq!(t.nanosecond(), 1_999_999_999);
    assert_eq!(Timestamp::new(2024, 1, 1, 0, 0, 0, 0), Some(stamp(2024, 1, 1, 0, 0, 0, 0)));
}

#[test]
fn new_refuses_a_field_out_of_range() {
    assert_eq!(Timestamp::new(2024, 0, 1, 0, 0, 0, 0), None);
    assert_eq!(Timestamp::new(2024, 13, 1, 0, 0, 0, 0), None);
    assert_eq!(Timestamp::new(2024, 1, 0, 0, 0, 0, 0), None);
    assert_eq!(Timestamp::new(2024, 1, 32, 0, 0, 0, 0), None);
    assert_eq!(Timestamp::new(2024, 1, 1, 24, 0, 0, 0), None);
    assert_eq!(Timestamp::new(2024, 1, 1, 0, 60, 0, 0), None);
    assert_eq!(Timestamp::new(2024, 1, 1, 0, 0, 60, 0), None);
    assert_eq!(Timestamp::new(2024, 1, 1, 0, 0, 59, 2_000_000_000), None);
    assert_eq!(Timestamp::new(262_143, 1, 1, 0, 0, 0, 0), None);
    assert_eq!(Timestamp::new(-262_144, 1, 1, 0, 0, 0, 0), None);
    assert_eq!(Timestamp::new(i32::MAX, 1, 1, 0, 0, 0, 0), None);
    assert_eq!(Timestamp::new(i32::MIN, 1, 1, 0, 0, 0, 0), None);
}

#[test]
fn new_refuses_a_day_the_month_lacks() {
    assert_eq!(Timestamp::new(2023, 4, 31, 0, 0, 0, 0), None);
    assert_eq!(Timestamp::new(2023, 2, 29, 0, 0, 0, 0), None);
    assert_eq!(Timestamp::new(1900, 2, 29, 0, 0, 0, 0), None);
    assert_eq!(Timestamp::new(2024, 2, 30, 0, 0, 0, 0), None);
    assert!(Timestamp::new(2024, 2, 29, 0, 0, 0, 0).is_some());
    assert!(Timestamp::new(2000, 2, 29, 0, 0, 0, 0).is_some());
    assert!(Timestamp::new(-4, 2, 29, 0, 0, 0, 0).is_some());
    assert!(Timestamp::new(0, 2, 29, 0, 0, 0, 0).is_some());
    assert!(Timestamp::new(2023, 12, 31, 0, 0, 0, 0).is_some());
}

#[test]
fn new_takes_a_leap_second_only_at_second_59() {
    assert_eq!(Timestamp::new(2024, 5, 6, 7, 8, 9, 1_000_000_000), None);
    assert_eq!(Timestamp::new(2024, 5, 6, 7, 8, 58, 1_999_999_999), None);
    assert!(Timestamp::new(2024, 5, 6, 7, 8, 59, 1_000_000_000).is_some());
}

#[test]
fn new_agrees_with_the_calendar_library() {
    for year in [-262_144, -262_143, -401, -400, -100, -4, -1, 0, 1, 1900, 2000, 2023, 2024, 262_142, 262_143] {
        for month in 0..=13 {
            for day in [0, 1, 28, 29, 30, 31, 32] {
                let ours = Timestamp::new(year, month, day, 0, 0, 0, 0).is_some();
                let theirs = NaiveDate::from_ymd_opt(year, month, day).is_some();
                assert_eq!(ours, theirs);
            }
        }
    }
    for (second, nano) in [(0, 0), (59, 999_999_999), (59, 1_000_000_000), (58, 1_000_000_000), (60, 0), (59, 2_000_000_000)] {
        let ours = Timestamp::new(2024, 1, 1, 23, 59, second, nano).is_some();
        let theirs = NaiveDate::from_ymd_opt(2024, 1, 1).unwrap().and_hms_nano_opt(23, 59, second, nano).is_some();
        assert_eq!(ours, theirs);
    }
}
