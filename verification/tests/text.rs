use rocker::text::{cut, is_cut, option_to_string, starts_with};
use rocker::views::{human_duration, human_seconds};
use std::time::Duration;

const MINUTE: u64 = 60;
const HOUR: u64 = 60 * MINUTE;

#[test]
fn less_than_a_second() {
    assert_eq!(human_seconds(0), "Less than a second");
    assert_eq!(human_duration(&Duration::from_millis(999)), "Less than a second");
}

#[test]
fn seconds_are_counted() {
    assert_eq!(human_seconds(1), "1 second");
    assert_eq!(human_seconds(2), "2 seconds");
    assert_eq!(human_seconds(42), "42 seconds");
    assert_eq!(human_seconds(59), "59 seconds");
}

#[test]
fn minutes_are_rounded_down() {
    assert_eq!(human_seconds(60), "About 1 minute");
    assert_eq!(human_seconds(119), "About 1 minute");
    assert_eq!(human_seconds(120), "2 minutes");
    assert_eq!(human_seconds(45 * MINUTE + 59), "45 minutes");
}

#[test]
fn hours_are_rounded_to_the_nearest() {
    assert_eq!(human_seconds(46 * MINUTE), "About 1 hour");
    assert_eq!(human_seconds(89 * MINUTE + 59), "About 1 hour");
    assert_eq!(human_seconds(90 * MINUTE), "2 hours");
    assert_eq!(human_seconds(149 * MINUTE), "2 hours");
    assert_eq!(human_seconds(150 * MINUTE), "3 hours");
    assert_eq!(human_seconds(47 * HOUR + 29 * MINUTE), "47 hours");
}

#[test]
fn days_weeks_months_and_years() {
    assert_eq!(human_seconds(47 * HOUR + 30 * MINUTE), "2 days");
    assert_eq!(human_seconds(48 * HOUR), "2 days");
    assert_eq!(human_seconds(335 * HOUR), "13 days");
    assert_eq!(human_seconds(336 * HOUR), "2 weeks");
    assert_eq!(human_seconds(1439 * HOUR), "8 weeks");
    assert_eq!(human_seconds(1440 * HOUR), "2 months");
    assert_eq!(human_seconds(17_519 * HOUR), "24 months");
    assert_eq!(human_seconds(17_520 * HOUR), "2 years");
    assert_eq!(human_seconds(10 * 365 * 24 * HOUR), "10 years");
}

#[test]
fn longest_duration_does_not_overflow() {
    assert_eq!(human_seconds(u64::MAX), "584942417355 years");
}

#[test]
fn duration_is_taken_in_whole_seconds() {
    assert_eq!(human_duration(&Duration::from_secs(90)), "About 1 minute");
    assert_eq!(human_duration(&Duration::new(59, 999_999_999)), "59 seconds");
    assert_eq!(human_duration(&Duration::from_secs(3 * HOUR)), "3 hours");
}

#[test]
fn optional_numbers_are_written_out() {
    assert_eq!(option_to_string(None), "None");
    assert_eq!(option_to_string(Some(0)), "Some(0)");
    assert_eq!(option_to_string(Some(1234567890)), "Some(1234567890)");
    assert_eq!(option_to_string(Some(u64::MAX)), format!("{:?}", Some(u64::MAX)));
}

#[test]
fn prefix_is_found() {
    assert!(starts_with("Up 2 hours", "Up "));
    assert!(starts_with("Up ", "Up "));
    assert!(starts_with("anything", ""));
    assert!(!starts_with("Up", "Up "));
    assert!(!starts_with("up 2 hours", "Up "));
    assert!(!starts_with("Exited (0) 3 days ago", "Up "));
    assert!(!starts_with("", "Up "));
    assert!(starts_with("\u{fc}ber", "\u{fc}"));
    assert!(!starts_with("uber", "\u{fc}"));
}

#[test]
fn byte_range_is_cut_out() {
    assert!(is_cut("sha256:0123456789abcdef", 7, 17));
    assert_eq!(cut("sha256:0123456789abcdef", 7, 17), "0123456789");
    assert_eq!(cut("abc", 0, 3), "abc");
    assert_eq!(cut("abc", 1, 1), "");
    assert_eq!(cut("a\u{fc}b", 1, 3), "\u{fc}");
}

#[test]
fn byte_range_has_to_lie_on_character_boundaries() {
    assert!(!is_cut("short", 7, 17));
    assert!(!is_cut("abc", 2, 1));
    assert!(!is_cut("a\u{fc}b", 0, 2));
    assert!(!is_cut("a\u{fc}b", 2, 4));
    assert!(is_cut("a\u{fc}b", 0, 4));
    assert!(!is_cut("abc", 0, 4));
}
