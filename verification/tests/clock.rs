use workouts::text::{decimal_string, same_text, two_digit_string};
use workouts::timer::{countdown, remaining, Timer, OVERTIME};

#[test]
fn as_time_of_zero() {
    assert_eq!(0u64.as_time(), "00:00:00");
}

#[test]
fn as_time_pads_each_field() {
    assert_eq!(3725u64.as_time(), "01:02:05");
}

#[test]
fn as_time_of_a_twenty_minute_session() {
    assert_eq!(1200u64.as_time(), "00:20:00");
}

#[test]
fn as_time_rolls_over_at_a_minute_and_an_hour() {
    assert_eq!(59u64.as_time(), "00:00:59");
    assert_eq!(60u64.as_time(), "00:01:00");
    assert_eq!(3599u64.as_time(), "00:59:59");
    assert_eq!(3600u64.as_time(), "01:00:00");
}

#[test]
fn as_time_lets_hours_grow_beyond_two_places() {
    assert_eq!(360000u64.as_time(), "100:00:00");
}

#[test]
fn as_time_agrees_with_std_formatting() {
    let samples: [u64; 9] = [0, 7, 20, 60, 600, 86399, 86400, 123456789, u64::MAX];
    for n in samples.iter() {
        let expected = format!("{:02}:{:02}:{:02}", n / 60 / 60, (n / 60) % 60, n % 60);
        assert_eq!(n.as_time(), expected);
    }
}

#[test]
fn decimal_string_agrees_with_std_formatting() {
    let samples: [u64; 8] = [0, 1, 9, 10, 99, 100, 1234567890, u64::MAX];
    for n in samples.iter() {
        assert_eq!(decimal_string(*n), format!("{}", n));
        assert_eq!(two_digit_string(*n), format!("{:02}", n));
    }
}

#[test]
fn remaining_counts_down() {
    assert_eq!(remaining(0, 20), (20, false));
    assert_eq!(remaining(13, 20), (7, false));
}

#[test]
fn remaining_is_zero_without_overtime_at_the_end() {
    assert_eq!(remaining(20, 20), (0, false));
}

#[test]
fn remaining_is_zero_with_overtime_beyond_the_end() {
    assert_eq!(remaining(21, 20), (0, true));
    assert_eq!(remaining(u64::MAX, 0), (0, true));
}

#[test]
fn countdown_shows_the_time_left() {
    assert_eq!(countdown(13, 20), "00:00:07");
    assert_eq!(countdown(20, 20), "00:00:00");
}

#[test]
fn countdown_shows_the_marker_in_overtime() {
    assert_eq!(countdown(21, 20), OVERTIME);
    assert_eq!(OVERTIME, "OVERTIME!");
}

#[test]
fn same_text_tells_texts_apart() {
    assert!(same_text("Monday", "Monday"));
    assert!(same_text("", ""));
    assert!(!same_text("Monday", "Mondays"));
    assert!(!same_text("Monday", "monday"));
    assert!(same_text("gr\u{fc}n", "gr\u{fc}n"));
    assert!(!same_text("gr\u{fc}n", "grun"));
}
