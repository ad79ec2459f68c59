//! Dates, times of day and the month that a log belongs to; and how the time
//! of an event is settled from the clock and the time the user gave.
//!
//! The calendar itself is chrono's: reading a time or a date from text, and
//! moving a date by a number of days, are calls into it.

use crate::error::TmgError;
use crate::text::text_of;
use chrono::{Datelike, Local, NaiveDate, NaiveTime, TimeDelta, Timelike};
use vstd::prelude::*;
use vstd::string::*;

verus! {

/// A day of the calendar.
#[derive(Clone, Copy, Debug, PartialEq, Eq, Structural)]
pub struct CalendarDate {
    pub year: i32,
    pub month: u32,
    pub day: u32,
}

/// A minute of local calendar time.
#[derive(Clone, Copy, Debug, PartialEq, Eq, Structural)]
pub struct Timestamp {
    pub year: i32,
    pub month: u32,
    pub day: u32,
    pub hour: u32,
    pub minute: u32,
}

/// The month of a year: it names one log.
#[derive(Clone, Copy, Debug, PartialEq, Eq, Structural)]
pub struct LogKey {
    pub year: i32,
    pub month: u32,
}

impl LogKey {
    /// The month is one of the twelve.
    pub open spec fn wf(self) -> bool {
        1 <= self.month <= 12
    }
}

impl CalendarDate {
    /// The month and the day are in the ranges that a calendar has.
    pub open spec fn wf(self) -> bool {
        1 <= self.month <= 12 && 1 <= self.day <= 31
    }

    /// The month that this day lies in.
    pub open spec fn spec_key(self) -> LogKey {
        LogKey { year: self.year, month: self.month }
    }

    /// The month that this day lies in.
    #[verifier::when_used_as_spec(spec_key)]
    pub fn key(self) -> (k: LogKey)
        ensures
            k == self.spec_key(),
    {
        LogKey { year: self.year, month: self.month }
    }
}

impl Timestamp {
    /// The date and the time of day are in the ranges that a calendar and a
    /// 24-hour clock have.
    pub open spec fn wf(self) -> bool {
        1 <= self.month <= 12 && 1 <= self.day <= 31 && self.hour < 24 && self.minute < 60
    }

    /// The day of this minute.
    pub open spec fn spec_date(self) -> CalendarDate {
        CalendarDate { year: self.year, month: self.month, day: self.day }
    }

    /// The day of this minute.
    #[verifier::when_used_as_spec(spec_date)]
    pub fn date(self) -> (d: CalendarDate)
        ensures
            d == self.spec_date(),
    {
        CalendarDate { year: self.year, month: self.month, day: self.day }
    }

    /// The month that this minute lies in.
    pub open spec fn spec_key(self) -> LogKey {
        LogKey { year: self.year, month: self.month }
    }

    /// The month that this minute lies in.
    #[verifier::when_used_as_spec(spec_key)]
    pub fn key(self) -> (k: LogKey)
        ensures
            k == self.spec_key(),
    {
        LogKey { year: self.year, month: self.month }
    }
}

/// The format in which a user gives a time of day.
pub open spec fn clock_format() -> Seq<char> {
    "%H:%M"@
}

/// The format in which a day is read.
pub open spec fn date_format() -> Seq<char> {
    "%Y-%m-%d"@
}

/// What is added to a month `YYYY-MM` to make it the first day of that month.
pub open spec fn first_day_suffix() -> Seq<char> {
    "-01"@
}

/// The hour and the minute that chrono reads from `text` in `format`, or
/// `None` where it reads no time of day from it.
pub uninterp spec fn clock_reading(text: Seq<char>, format: Seq<char>) -> Option<(u32, u32)>;

/// The year, the month and the day that chrono reads from `text` in `format`,
/// or `None` where it reads no date from it.
pub uninterp spec fn date_reading(text: Seq<char>, format: Seq<char>) -> Option<(i32, u32, u32)>;

/// The year, the month and the day that lie `days` days after the day given
/// (before it, where `days` is negative), as chrono's calendar has it, or
/// `None` where the day given is none of the calendar or the day asked for is
/// beyond the dates that chrono holds.
pub uninterp spec fn date_plus_days(year: i32, month: u32, day: u32, days: i64) -> Option<(i32, u32, u32)>;

/// Calls `chrono::NaiveTime::parse_from_str` and hands out the hour and the
/// minute of the time it read. Trusted: the result is chrono's reading of the
/// text, and chrono's hours lie in 0..=23, its minutes in 0..=59.
#[verifier::external_body]
fn read_clock(text: &str, format: &str) -> (r: Option<(u32, u32)>)
    ensures
        r == clock_reading(text@, format@),
        r matches Some(t) ==> t.0 < 24 && t.1 < 60,
{
    match NaiveTime::parse_from_str(text, format) {
        Ok(t) => Some((t.hour(), t.minute())),
        Err(_) => None,
    }
}

/// Calls `chrono::NaiveDate::parse_from_str` and hands out the year, the month
/// and the day of the date it read. Trusted: the result is chrono's reading of
/// the text, and chrono's months lie in 1..=12, its days in 1..=31.
#[verifier::external_body]
fn read_date(text: &str, format: &str) -> (r: Option<(i32, u32, u32)>)
    ensures
        r == date_reading(text@, format@),
        r matches Some(d) ==> 1 <= d.1 <= 12 && 1 <= d.2 <= 31,
{
    match NaiveDate::parse_from_str(text, format) {
        Ok(d) => Some((d.year(), d.month(), d.day())),
        Err(_) => None,
    }
}

/// Calls `chrono::NaiveDate::checked_add_signed` on the day given, which is
/// made with `NaiveDate::from_ymd_opt`, and a span of `days` days, which is
/// made with `TimeDelta::try_days`; `None` where any of the three gives none.
/// Trusted: the result is the day that chrono finds, and chrono's months lie
/// in 1..=12, its days in 1..=31.
#[verifier::external_body]
fn add_days(year: i32, month: u32, day: u32, days: i64) -> (r: Option<(i32, u32, u32)>)
    ensures
        r == date_plus_days(year, month, day, days),
        r matches Some(d) ==> 1 <= d.1 <= 12 && 1 <= d.2 <= 31,
{
    let from = NaiveDate::from_ymd_opt(year, month, day)?;
    let to = from.checked_add_signed(TimeDelta::try_days(days)?)?;
    Some((to.year(), to.month(), to.day()))
}

/// Calls `chrono::Local::now` and hands out the minute that the local clock
/// shows. Trusted: chrono's months lie in 1..=12, its days in 1..=31, its
/// hours in 0..=23 and its minutes in 0..=59.
#[verifier::external_body]
pub(crate) fn local_now() -> (now: Timestamp)
    ensures
        now.wf(),
{
    let t = Local::now();
    Timestamp { year: t.year(), month: t.month(), day: t.day(), hour: t.hour(), minute: t.minute() }
}

/// The time of an event that happens at `now`, where the user's time of day
/// was read as `clock`: today's date with the hour and the minute read, or a
/// failure where none was read.
pub open spec fn with_clock_spec(now: Timestamp, clock: Option<(u32, u32)>) -> Result<
    Timestamp,
    TmgError,
> {
    match clock {
        Some(t) => Ok(
            Timestamp { year: now.year, month: now.month, day: now.day, hour: t.0, minute: t.1 },
        ),
        None => Err(TmgError::InvalidTimeFormat),
    }
}

/// The time of an event that happens at `now`, where the user gave the time
/// of day `at` or none: `now` itself where none was given; else today's date
/// with the time of day that was given.
pub open spec fn resolve_spec(now: Timestamp, at: Option<Seq<char>>) -> Result<
    Timestamp,
    TmgError,
> {
    match at {
        None => Ok(now),
        Some(text) => with_clock_spec(now, clock_reading(text, clock_format())),
    }
}

/// Puts a time of day that was read from the user, if one was read, in the
/// place of the clock's: the date stays today's.
pub fn with_clock(now: Timestamp, clock: Option<(u32, u32)>) -> (r: Result<Timestamp, TmgError>)
    ensures
        r == with_clock_spec(now, clock),
        now.wf() && (clock matches Some(t) && t.0 < 24 && t.1 < 60) ==> r.unwrap().wf(),
{
    match clock {
        Some(t) => Ok(
            Timestamp { year: now.year, month: now.month, day: now.day, hour: t.0, minute: t.1 },
        ),
        None => Err(TmgError::InvalidTimeFormat),
    }
}

/// Settles the time of an event: `now`, or today's date with the time of day
/// `at` where the user gave one. A time that is not `HH:MM` on a 24-hour
/// clock is refused.
pub fn resolve(now: Timestamp, at: Option<&str>) -> (r: Result<Timestamp, TmgError>)
    ensures
        r == resolve_spec(now, text_of(at)),
        at is None ==> r == Ok::<Timestamp, TmgError>(now),
        now.wf() && r is Ok ==> r.unwrap().wf(),
        r matches Ok(t) ==> t.year == now.year && t.month == now.month && t.day == now.day,
        r matches Err(e) ==> e == TmgError::InvalidTimeFormat,
{
    match at {
        None => Ok(now),
        Some(text) => with_clock(now, read_clock(text, "%H:%M")),
    }
}

/// Checks a time of day that a user gave and hands it back unchanged.
pub fn parse_time(value: &str) -> (r: Result<String, TmgError>)
    ensures
        clock_reading(value@, clock_format()) is Some ==> r is Ok && r.unwrap()@ == value@,
        clock_reading(value@, clock_format()) is None ==> r == Err::<String, TmgError>(
            TmgError::InvalidTimeFormat,
        ),
{
    match read_clock(value, "%H:%M") {
        Some(_) => Ok(String::from_str(value)),
        None => Err(TmgError::InvalidTimeFormat),
    }
}

/// The month of a date that was read, or a failure where none was read.
pub open spec fn month_key_spec(date: Option<(i32, u32, u32)>) -> Result<LogKey, TmgError> {
    match date {
        Some(d) => Ok(LogKey { year: d.0, month: d.1 }),
        None => Err(TmgError::InvalidDateFormat),
    }
}

/// The month that the text `YYYY-MM` names: the month of the first day of it.
pub open spec fn parse_month_spec(selector: Seq<char>) -> Result<LogKey, TmgError> {
    month_key_spec(date_reading(selector + first_day_suffix(), date_format()))
}

/// The month whose log a command works on: the one the user named, or the
/// month of `now` where none was named.
pub open spec fn log_key_spec(now: Timestamp, at: Option<Seq<char>>) -> Result<LogKey, TmgError> {
    match at {
        Some(selector) => parse_month_spec(selector),
        None => Ok(now.spec_key()),
    }
}

/// The month of a date that was read from the user, if one was read.
pub fn month_key(date: Option<(i32, u32, u32)>) -> (r: Result<LogKey, TmgError>)
    ensures
        r == month_key_spec(date),
{
    match date {
        Some(d) => Ok(LogKey { year: d.0, month: d.1 }),
        None => Err(TmgError::InvalidDateFormat),
    }
}

/// Reads a month given as `YYYY-MM`.
pub fn parse_month(selector: &str) -> (r: Result<LogKey, TmgError>)
    ensures
        r == parse_month_spec(selector@),
        r matches Ok(k) ==> k.wf(),
        r matches Err(e) ==> e == TmgError::InvalidDateFormat,
{
    let mut day_text = String::from_str(selector);
    day_text.append("-01");
    month_key(read_date(day_text.as_str(), "%Y-%m-%d"))
}

/// The month whose log a command works on: the one named by `at`, or the
/// month of `now` where `at` is absent.
pub fn log_key_for(now: Timestamp, at: Option<&str>) -> (r: Result<LogKey, TmgError>)
    ensures
        r == log_key_spec(now, text_of(at)),
        at is None ==> r == Ok::<LogKey, TmgError>(now.spec_key()),
        r matches Err(e) ==> e == TmgError::InvalidDateFormat,
{
    match at {
        Some(selector) => parse_month(selector),
        None => Ok(now.key()),
    }
}

/// The month whose log a command works on, by the local clock: the one named
/// by `at`, or the current month where `at` is absent.
pub fn current_log_key(at: Option<&str>) -> (r: Result<LogKey, TmgError>)
    ensures
        at matches Some(selector) ==> r == parse_month_spec(selector@),
        at is None ==> r is Ok && r.unwrap().wf(),
{
    let now = local_now();
    log_key_for(now, at)
}

/// The day that lies `days` days after `date`, where chrono's calendar has
/// one.
pub open spec fn shifted_spec(date: CalendarDate, days: i64) -> Option<CalendarDate> {
    match date_plus_days(date.year, date.month, date.day, days) {
        Some(d) => Some(CalendarDate { year: d.0, month: d.1, day: d.2 }),
        None => None,
    }
}

/// The day that lies `days` days after `date` (before it, where `days` is
/// negative), or `None` where `date` is no day of the calendar or the day
/// asked for is out of the calendar's range.
pub fn shifted(date: CalendarDate, days: i64) -> (r: Option<CalendarDate>)
    ensures
        r == shifted_spec(date, days),
        r matches Some(d) ==> d.wf(),
{
    match add_days(date.year, date.month, date.day, days) {
        Some(d) => Some(CalendarDate { year: d.0, month: d.1, day: d.2 }),
        None => None,
    }
}

/// Without a time of day from the user, the time of an event is the clock's.
pub proof fn no_override_keeps_now(now: Timestamp)
    ensures
        resolve_spec(now, None) == Ok::<Timestamp, TmgError>(now),
{
}

/// A time of day from the user takes the place of the clock's and leaves the
/// date alone: the event is on the day of `now`, at the hour and the minute
/// that were read; and what the clock showed as the time of day does not
/// matter.
pub proof fn override_keeps_today(now: Timestamp, other: Timestamp, at: Seq<char>)
    requires
        now.spec_date() == other.spec_date(),
    ensures
        resolve_spec(now, Some(at)) == resolve_spec(other, Some(at)),
        resolve_spec(now, Some(at)) matches Ok(t) ==> t.spec_date() == now.spec_date()
            && clock_reading(at, clock_format()) == Some((t.hour, t.minute)),
        resolve_spec(now, Some(at)) is Err <==> clock_reading(at, clock_format()) is None,
        resolve_spec(now, Some(at)) matches Err(e) ==> e == TmgError::InvalidTimeFormat,
{
}

} // verus!
