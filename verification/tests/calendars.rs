use kreta_proxy::calendar::{
    format_date, is_calendar_date_text, is_clock_time_text, is_leap, month_length,
    strip_time_date_to_date, strip_time_date_to_time, weekday_index,
};

#[test]
fn date_is_what_stands_before_the_first_t() {
    assert_eq!(strip_time_date_to_date("2024-03-04T09:00:00").as_deref(), Some("2024-03-04"));
    assert_eq!(strip_time_date_to_date("2024-03-04T").as_deref(), Some("2024-03-04"));
    assert_eq!(strip_time_date_to_date("2024-03-04").as_deref(), Some("2024-03-04"));
    assert_eq!(strip_time_date_to_date("2024-03-04TxxTyy").as_deref(), Some("2024-03-04"));
    assert_eq!(strip_time_date_to_date("0000-01-01T00:00:00").as_deref(), Some("0000-01-01"));
    assert_eq!(strip_time_date_to_date("9999-12-31T23:59:59Z").as_deref(), Some("9999-12-31"));
}

#[test]
fn date_must_be_a_calendar_date() {
    for stamp in [
        "", "T", "2024-03-04 09:00:00", "2024-3-4T09:00:00", "24-03-04T09:00:00",
        "2024-13-01T00:00:00", "2024-00-10T00:00:00", "2024-01-00T00:00:00",
        "2024-01-32T00:00:00", "2023-02-29T00:00:00", "2024-04-31T00:00:00",
        "1900-02-29T00:00:00", "2024/03/04T09:00:00", " 2024-03-04T09:00:00",
        "2024-03-04t09:00:00", "٢٠٢٤-03-04T09:00:00", "2024-03-0４T09:00:00",
    ] {
        assert_eq!(strip_time_date_to_date(stamp), None, "{}", stamp);
    }
}

#[test]
fn leap_days_are_calendar_dates() {
    assert!(is_calendar_date_text("2024-02-29"));
    assert!(is_calendar_date_text("2000-02-29"));
    assert!(is_calendar_date_text("0000-02-29"));
    assert!(!is_calendar_date_text("2100-02-29"));
    assert!(!is_calendar_date_text("2023-02-29"));
    assert!(is_calendar_date_text("2023-02-28"));
    assert!(!is_calendar_date_text("2023-02-28T"));
    assert!(!is_calendar_date_text("2023-02-2"));
}

#[test]
fn months_have_their_lengths() {
    let lengths = [31u8, 28, 31, 30, 31, 30, 31, 31, 30, 31, 30, 31];
    for month in 1..=12u8 {
        assert_eq!(month_length(2023, month), lengths[(month - 1) as usize]);
    }
    assert_eq!(month_length(2024, 2), 29);
    assert!(is_leap(2024) && is_leap(2000) && is_leap(0));
    assert!(!is_leap(1900) && !is_leap(2023) && !is_leap(2100));
}

#[test]
fn time_is_the_eight_characters_behind_the_first_t() {
    assert_eq!(strip_time_date_to_time("2024-03-04T09:00:00").as_deref(), Some("09:00:00"));
    assert_eq!(strip_time_date_to_time("2024-03-04T23:59:59Z").as_deref(), Some("23:59:59"));
    assert_eq!(strip_time_date_to_time("T00:00:00+02:00").as_deref(), Some("00:00:00"));
    assert_eq!(strip_time_date_to_time("junkT12:34:56.789").as_deref(), Some("12:34:56"));
}

#[test]
fn time_must_be_a_time_of_day() {
    for stamp in [
        "", "T", "09:00:00", "2024-03-04", "2024-03-04T", "2024-03-04T09:00",
        "2024-03-04T9:00:00", "2024-03-04T24:00:00", "2024-03-04T12:60:00",
        "2024-03-04T12:00:60", "2024-03-04T12-00-00", "2024-03-04TT12:00:00",
        "2024-03-04T 12:00:00", "2024-03-04T１2:00:00",
    ] {
        assert_eq!(strip_time_date_to_time(stamp), None, "{}", stamp);
    }
    assert!(is_clock_time_text("00:00:00"));
    assert!(is_clock_time_text("23:59:59"));
    assert!(!is_clock_time_text("23:59:5"));
    assert!(!is_clock_time_text("23:59:590"));
}

#[test]
fn weekdays_count_from_monday() {
    assert_eq!(weekday_index("2024-03-04"), Some(0));
    assert_eq!(weekday_index("2024-03-05"), Some(1));
    assert_eq!(weekday_index("2024-03-06"), Some(2));
    assert_eq!(weekday_index("2024-03-07"), Some(3));
    assert_eq!(weekday_index("2024-03-08"), Some(4));
    assert_eq!(weekday_index("2024-03-09"), Some(5));
    assert_eq!(weekday_index("2024-03-10"), Some(6));
    assert_eq!(weekday_index("1999-09-19"), Some(6));
    assert_eq!(weekday_index("2000-01-01"), Some(5));
    assert_eq!(weekday_index("1970-01-01"), Some(3));
    assert_eq!(weekday_index("0001-01-01"), Some(0));
    assert_eq!(weekday_index("9999-12-31"), Some(4));
    assert_eq!(weekday_index("2024-02-29"), Some(3));
}

#[test]
fn weekday_of_no_date_is_none() {
    assert_eq!(weekday_index("2024-02-30"), None);
    assert_eq!(weekday_index("2024-3-4"), None);
    assert_eq!(weekday_index(""), None);
    assert_eq!(weekday_index("2024-03-04T00:00:00"), None);
}

#[test]
fn dates_are_written_with_padding() {
    assert_eq!(format_date(2024, 3, 4), "2024-03-04");
    assert_eq!(format_date(2024, 12, 31), "2024-12-31");
    assert_eq!(format_date(5, 1, 1), "0005-01-01");
    assert_eq!(format_date(0, 1, 1), "0000-01-01");
    assert_eq!(format_date(9999, 9, 9), "9999-09-09");
    assert_eq!(format_date(10000, 1, 1), "+10000-01-01");
    assert_eq!(format_date(-1, 1, 1), "-0001-01-01");
    assert_eq!(format_date(-12345, 10, 20), "-12345-10-20");
    assert_eq!(format_date(1, 0, 255), "0001-00-255");
    assert_eq!(format_date(i64::MIN, 1, 1), "-9223372036854775808-01-01");
    assert_eq!(format_date(i64::MAX, 1, 1), "+9223372036854775807-01-01");
}

#[test]
fn written_dates_are_read_back() {
    for (y, m, d) in [(2024i64, 2u8, 29u8), (1999, 9, 19), (1, 1, 1), (9999, 12, 31)] {
        let written = format_date(y, m, d);
        assert!(is_calendar_date_text(&written));
        assert_eq!(strip_time_date_to_date(&written), Some(written.clone()));
    }
}
