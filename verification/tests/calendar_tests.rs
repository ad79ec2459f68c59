use chrono::{Datelike, Timelike};
use tmg::calendar::{
    current_log_key, log_key_for, month_key, parse_month, parse_time, resolve, shifted,
    with_clock, CalendarDate, LogKey, Timestamp,
};
use tmg::error::TmgError;

fn now() -> Timestamp {
    Timestamp { year: 2024, month: 3, day: 5, hour: 9, minute: 15 }
}

fn day(year: i32, month: u32, day: u32) -> CalendarDate {
    CalendarDate { year, month, day }
}

#[test]
fn resolve_without_override_is_now() {
    assert_eq!(resolve(now(), None), Ok(now()));
}

#[test]
fn resolve_with_override_keeps_today() {
    let expected = Timestamp { year: 2024, month: 3, day: 5, hour: 14, minute: 30 };
    assert_eq!(resolve(now(), Some("14:30")), Ok(expected));
}

#[test]
fn resolve_with_override_ignores_the_clock_time() {
    let morning = Timestamp { hour: 0, minute: 0, ..now() };
    let night = Timestamp { hour: 23, minute: 59, ..now() };
    assert_eq!(resolve(morning, Some("14:30")), resolve(night, Some("14:30")));
}

#[test]
fn resolve_refuses_hour_25() {
    assert_eq!(resolve(now(), Some("25:00")), Err(TmgError::InvalidTimeFormat));
}

#[test]
fn resolve_refuses_what_is_no_time() {
    assert_eq!(resolve(now(), Some("")), Err(TmgError::InvalidTimeFormat));
    assert_eq!(resolve(now(), Some("noon")), Err(TmgError::InvalidTimeFormat));
    assert_eq!(resolve(now(), Some("12")), Err(TmgError::InvalidTimeFormat));
    assert_eq!(resolve(now(), Some("12:60")), Err(TmgError::InvalidTimeFormat));
    assert_eq!(resolve(now(), Some("24:00")), Err(TmgError::InvalidTimeFormat));
    assert_eq!(resolve(now(), Some("12:30:15")), Err(TmgError::InvalidTimeFormat));
    assert_eq!(resolve(now(), Some("12:30 pm")), Err(TmgError::InvalidTimeFormat));
}

#[test]
fn resolve_takes_the_ends_of_the_day() {
    assert_eq!(resolve(now(), Some("00:00")), Ok(Timestamp { hour: 0, minute: 0, ..now() }));
    assert_eq!(resolve(now(), Some("23:59")), Ok(Timestamp { hour: 23, minute: 59, ..now() }));
}

#[test]
fn resolve_reads_as_chrono_does() {
    let texts = ["14:30", "7:15", "07:05", "25:00", "", "ab:cd", "12:60", " 1:02", "1:2", "1: 2"];
    for text in texts.iter() {
        let expected = match chrono::NaiveTime::parse_from_str(text, "%H:%M") {
            Ok(t) => {
                Ok(Timestamp { hour: t.hour(), minute: t.minute(), ..now() })
            }
            Err(_) => Err(TmgError::InvalidTimeFormat),
        };
        assert_eq!(resolve(now(), Some(*text)), expected);
    }
}

#[test]
fn with_clock_puts_the_time_read_on_today() {
    let expected = Timestamp { year: 2024, month: 3, day: 5, hour: 14, minute: 30 };
    assert_eq!(with_clock(now(), Some((14, 30))), Ok(expected));
    assert_eq!(with_clock(now(), None), Err(TmgError::InvalidTimeFormat));
}

#[test]
fn parse_time_hands_the_text_back() {
    assert_eq!(parse_time("14:30"), Ok(String::from("14:30")));
    assert_eq!(parse_time("7:15"), Ok(String::from("7:15")));
}

#[test]
fn parse_time_refuses_hour_25() {
    assert_eq!(parse_time("25:00"), Err(TmgError::InvalidTimeFormat));
    assert_eq!(parse_time("half past"), Err(TmgError::InvalidTimeFormat));
}

#[test]
fn parse_month_reads_year_and_month() {
    assert_eq!(parse_month("2023-01"), Ok(LogKey { year: 2023, month: 1 }));
    assert_eq!(parse_month("2024-12"), Ok(LogKey { year: 2024, month: 12 }));
    assert_eq!(parse_month("2024-3"), Ok(LogKey { year: 2024, month: 3 }));
}

#[test]
fn parse_month_refuses_what_is_no_month() {
    assert_eq!(parse_month("2023-13"), Err(TmgError::InvalidDateFormat));
    assert_eq!(parse_month("2023-00"), Err(TmgError::InvalidDateFormat));
    assert_eq!(parse_month("2023"), Err(TmgError::InvalidDateFormat));
    assert_eq!(parse_month(""), Err(TmgError::InvalidDateFormat));
    assert_eq!(parse_month("march"), Err(TmgError::InvalidDateFormat));
    assert_eq!(parse_month("2023-01-15"), Err(TmgError::InvalidDateFormat));
}

#[test]
fn month_key_takes_year_and_month() {
    assert_eq!(month_key(Some((2023, 1, 1))), Ok(LogKey { year: 2023, month: 1 }));
    assert_eq!(month_key(None), Err(TmgError::InvalidDateFormat));
}

#[test]
fn log_key_without_selector_is_the_month_of_now() {
    assert_eq!(log_key_for(now(), None), Ok(LogKey { year: 2024, month: 3 }));
}

#[test]
fn log_key_with_selector_is_the_month_named() {
    assert_eq!(log_key_for(now(), Some("2023-01")), Ok(LogKey { year: 2023, month: 1 }));
    assert_eq!(log_key_for(now(), Some("01-2023")), Err(TmgError::InvalidDateFormat));
}

#[test]
fn current_log_key_with_selector() {
    assert_eq!(current_log_key(Some("2023-01")), Ok(LogKey { year: 2023, month: 1 }));
    assert_eq!(current_log_key(Some("nope")), Err(TmgError::InvalidDateFormat));
}

#[test]
fn current_log_key_is_a_month_of_the_calendar() {
    let key = current_log_key(None).unwrap();
    assert!(1 <= key.month && key.month <= 12);
    assert!(key.year >= 2024);
}

#[test]
fn keys_of_dates_and_times() {
    assert_eq!(now().key(), LogKey { year: 2024, month: 3 });
    assert_eq!(now().date(), day(2024, 3, 5));
    assert_eq!(day(2024, 3, 5).key(), LogKey { year: 2024, month: 3 });
}

#[test]
fn thirty_days_back() {
    assert_eq!(shifted(day(2024, 3, 5), -30), Some(day(2024, 2, 4)));
    assert_eq!(shifted(day(2024, 1, 15), -30), Some(day(2023, 12, 16)));
}

#[test]
fn thirty_days_forward() {
    assert_eq!(shifted(day(2024, 3, 5), 30), Some(day(2024, 4, 4)));
    assert_eq!(shifted(day(2023, 12, 16), 30), Some(day(2024, 1, 15)));
}

#[test]
fn thirty_days_can_skip_a_month() {
    assert_eq!(shifted(day(2023, 1, 31), 30), Some(day(2023, 3, 2)));
}

#[test]
fn thirty_days_can_stay_in_a_month() {
    assert_eq!(shifted(day(2024, 3, 1), 30), Some(day(2024, 3, 31)));
    assert_eq!(shifted(day(2024, 3, 31), -30), Some(day(2024, 3, 1)));
}

#[test]
fn no_days_is_the_same_day() {
    assert_eq!(shifted(day(2024, 2, 29), 0), Some(day(2024, 2, 29)));
}

#[test]
fn a_day_that_is_none_has_no_neighbour() {
    assert_eq!(shifted(day(2023, 2, 29), 30), None);
    assert_eq!(shifted(day(2024, 13, 1), 30), None);
    assert_eq!(shifted(day(2024, 0, 1), -30), None);
    assert_eq!(shifted(day(2024, 4, 31), 30), None);
}

#[test]
fn the_calendar_ends() {
    let last = chrono::NaiveDate::MAX;
    let first = chrono::NaiveDate::MIN;
    assert_eq!(shifted(day(last.year(), last.month(), last.day()), 30), None);
    assert_eq!(shifted(day(first.year(), first.month(), first.day()), -30), None);
    assert_eq!(shifted(day(2024, 3, 5), i64::MAX), None);
    assert_eq!(shifted(day(2024, 3, 5), i64::MIN), None);
}

#[test]
fn shifted_is_chrono_arithmetic() {
    let start = chrono::NaiveDate::from_ymd_opt(2023, 11, 20).unwrap();
    for offset in [-400i64, -30, -1, 1, 29, 30, 31, 366].iter() {
        let expected = start + chrono::TimeDelta::try_days(*offset).unwrap();
        assert_eq!(
            shifted(day(2023, 11, 20), *offset),
            Some(day(expected.year(), expected.month(), expected.day()))
        );
    }
}
