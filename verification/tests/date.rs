use chrono::{Datelike, Month, TimeZone, Timelike};
use tmgui::app::TempMailApp;
use tmgui::date::{push_decimal, push_signed_decimal, LocalTime};

fn line(weekday: u32, month: u32, day: u32, year: i32, hour: u32, minute: u32) -> String {
    TempMailApp::get_date(&LocalTime::new(weekday, month, day, year, hour, minute).unwrap())
}

/// The line as the calendar library itself words it, for a moment in
/// universal time.
fn worded_by_chrono(timestamp: i64) -> (LocalTime, String) {
    let date = chrono::Utc.timestamp_opt(timestamp, 0).unwrap();
    let (pm, hour) = date.hour12();
    let minute = date.minute();
    let weekday = date.weekday().to_string();
    let month = Month::try_from(date.month() as u8).unwrap().name();
    let day = date.day();
    let year = date.year();
    let expected = format!(
        "{weekday}, {month} {day}, {year} at {hour}:{minute} {}",
        if pm { "PM" } else { "AM" }
    );
    let time = LocalTime::new(
        date.weekday().num_days_from_monday(),
        date.month(),
        date.day(),
        date.year(),
        date.hour(),
        date.minute(),
    )
    .unwrap();
    (time, expected)
}

#[test]
fn date_line_of_an_evening() {
    assert_eq!(line(0, 1, 5, 2026, 21, 7), "Mon, January 5, 2026 at 9:7 PM");
}

#[test]
fn date_line_of_a_morning() {
    assert_eq!(line(6, 12, 31, 1999, 8, 30), "Sun, December 31, 1999 at 8:30 AM");
}

#[test]
fn midnight_and_noon_are_twelve() {
    assert_eq!(line(2, 3, 1, 2024, 0, 0), "Wed, March 1, 2024 at 12:0 AM");
    assert_eq!(line(2, 3, 1, 2024, 12, 0), "Wed, March 1, 2024 at 12:0 PM");
    assert_eq!(line(2, 3, 1, 2024, 11, 59), "Wed, March 1, 2024 at 11:59 AM");
    assert_eq!(line(2, 3, 1, 2024, 13, 5), "Wed, March 1, 2024 at 1:5 PM");
    assert_eq!(line(2, 3, 1, 2024, 23, 59), "Wed, March 1, 2024 at 11:59 PM");
}

#[test]
fn every_weekday_has_its_name() {
    let names = ["Mon", "Tue", "Wed", "Thu", "Fri", "Sat", "Sun"];
    for (weekday, name) in names.iter().enumerate() {
        assert_eq!(
            line(weekday as u32, 6, 10, 2020, 10, 10),
            format!("{name}, June 10, 2020 at 10:10 AM")
        );
    }
}

#[test]
fn every_month_has_its_name() {
    let names = [
        "January",
        "February",
        "March",
        "April",
        "May",
        "June",
        "July",
        "August",
        "September",
        "October",
        "November",
        "December",
    ];
    for (month, name) in names.iter().enumerate() {
        assert_eq!(
            line(4, month as u32 + 1, 1, 2021, 15, 45),
            format!("Fri, {name} 1, 2021 at 3:45 PM")
        );
    }
}

#[test]
fn years_before_the_common_era_carry_a_sign() {
    assert_eq!(line(0, 1, 1, -44, 1, 1), "Mon, January 1, -44 at 1:1 AM");
    assert_eq!(line(0, 1, 1, 0, 1, 1), "Mon, January 1, 0 at 1:1 AM");
    assert_eq!(
        line(0, 1, 1, i32::MIN, 1, 1),
        "Mon, January 1, -2147483648 at 1:1 AM"
    );
    assert_eq!(line(0, 1, 1, i32::MAX, 1, 1), "Mon, January 1, 2147483647 at 1:1 AM");
}

#[test]
fn date_line_agrees_with_the_calendar_library() {
    let mut timestamp: i64 = -2_000_000_000;
    while timestamp < 4_000_000_000 {
        let (time, expected) = worded_by_chrono(timestamp);
        assert_eq!(TempMailApp::get_date(&time), expected);
        timestamp += 7_654_321;
    }
    let (time, expected) = worded_by_chrono(0);
    assert_eq!(expected, "Thu, January 1, 1970 at 12:0 AM");
    assert_eq!(TempMailApp::get_date(&time), expected);
}

#[test]
fn parts_out_of_range_make_no_time() {
    assert!(LocalTime::new(7, 1, 1, 2000, 0, 0).is_none());
    assert!(LocalTime::new(0, 0, 1, 2000, 0, 0).is_none());
    assert!(LocalTime::new(0, 13, 1, 2000, 0, 0).is_none());
    assert!(LocalTime::new(0, 1, 0, 2000, 0, 0).is_none());
    assert!(LocalTime::new(0, 1, 32, 2000, 0, 0).is_none());
    assert!(LocalTime::new(0, 1, 1, 2000, 24, 0).is_none());
    assert!(LocalTime::new(0, 1, 1, 2000, 0, 60).is_none());
    assert!(LocalTime::new(256, 1, 1, 2000, 0, 0).is_none());
    assert!(LocalTime::new(0, 257, 1, 2000, 0, 0).is_none());
    assert!(LocalTime::new(u32::MAX, u32::MAX, u32::MAX, 0, u32::MAX, u32::MAX).is_none());
}

#[test]
fn parts_in_range_are_kept() {
    let time = LocalTime::new(6, 12, 31, -5, 23, 59).unwrap();
    assert_eq!(time.weekday(), 6);
    assert_eq!(time.month(), 12);
    assert_eq!(time.day(), 31);
    assert_eq!(time.year(), -5);
    assert_eq!(time.hour(), 23);
    assert_eq!(time.minute(), 59);
    let time = LocalTime::new(0, 1, 1, 0, 0, 0).unwrap();
    assert_eq!(
        (time.weekday(), time.month(), time.day(), time.year(), time.hour(), time.minute()),
        (0, 1, 1, 0, 0, 0)
    );
}

#[test]
fn decimal_digits_without_padding() {
    for (value, digits) in [
        (0u64, "0"),
        (7, "7"),
        (9, "9"),
        (10, "10"),
        (99, "99"),
        (100, "100"),
        (1_234_567_890, "1234567890"),
        (u64::MAX, "18446744073709551615"),
    ] {
        let mut text = "n=".to_string();
        push_decimal(&mut text, value);
        assert_eq!(text, format!("n={digits}"));
    }
}

#[test]
fn signed_decimal_digits() {
    for value in [0, 1, -1, 9, -9, 10, -10, 2026, -2026, i32::MAX, i32::MIN] {
        let mut text = String::new();
        push_signed_decimal(&mut text, value);
        assert_eq!(text, value.to_string());
    }
}
