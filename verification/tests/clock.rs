use chrono::Timelike;
use statusbar::clock::{format_clock, LocalTime};

fn reading(hour: u32, minute: u32, second: u32, nanosecond: u32) -> LocalTime {
    LocalTime { hour, minute, second, nanosecond }
}

#[test]
fn format_clock_pads_each_field() {
    assert_eq!(format_clock(&reading(9, 5, 3, 0)), "09:05:03");
}

#[test]
fn format_clock_two_digit_fields() {
    assert_eq!(format_clock(&reading(23, 59, 58, 999_999_999)), "23:59:58");
}

#[test]
fn format_clock_midnight() {
    assert_eq!(format_clock(&reading(0, 0, 0, 0)), "00:00:00");
}

#[test]
fn format_clock_shows_leap_second_as_sixty() {
    assert_eq!(format_clock(&reading(23, 59, 59, 1_250_000_000)), "23:59:60");
}

#[test]
fn format_clock_agrees_with_chrono_format() {
    let now = chrono::Local::now();
    let t = reading(now.hour(), now.minute(), now.second(), now.nanosecond());
    assert!(t.is_valid());
    assert_eq!(format_clock(&t), now.format("%H:%M:%S").to_string());
}

#[test]
fn is_valid_checks_each_field() {
    assert!(reading(23, 59, 59, 1_999_999_999).is_valid());
    assert!(!reading(24, 0, 0, 0).is_valid());
    assert!(!reading(0, 60, 0, 0).is_valid());
    assert!(!reading(0, 0, 60, 0).is_valid());
    assert!(!reading(0, 0, 0, 2_000_000_000).is_valid());
}
