//! The commands: recording the start or the stop of a task, and viewing the
//! log of a month.
//!
//! A command is worked out here and carried out by the caller: recording
//! yields the line and the month whose log it is appended to; viewing takes
//! what reading the month's file gave and yields what is printed.

use crate::calendar::{local_now, resolve, resolve_spec, LogKey, Timestamp};
use crate::codec::{format_line, line_of_loggable_is_clean, line_text, loggable, Action, Event};
use crate::error::TmgError;
use crate::eventlog::{
    appended_lines_are_read_back, lines_of, log_of, raw_text, read_failure, read_view, ReadError,
};
use crate::paths::{file_name, file_name_text};
use crate::text::{owned_text_of, text_of};
use vstd::prelude::*;
use vstd::string::*;

verus! {

/// What recording an event comes to: a line, and the month to whose log it
/// is appended.
#[derive(Clone, Debug, PartialEq, Eq)]
pub struct Entry {
    pub key: LogKey,
    pub line: String,
}

/// What viewing a month comes to: the name of the log's file and the text of
/// the log, as it is.
#[derive(Clone, Debug, PartialEq, Eq)]
pub struct Listing {
    pub file_name: String,
    pub content: String,
}

/// The month and the line that recording an event at `now` comes to: the time
/// of the event is settled first, the month is the month of that time, and
/// the line is the line of the event at that time. A time of day that cannot
/// be read fails the command, and nothing is to be written.
pub open spec fn record_spec(
    now: Timestamp,
    action: Action,
    task: Seq<char>,
    at: Option<Seq<char>>,
    tag: Option<Seq<char>>,
) -> Result<(LogKey, Seq<char>), TmgError> {
    match resolve_spec(now, at) {
        Ok(t) => Ok((t.spec_key(), line_text(t, task, action, tag))),
        Err(e) => Err(e),
    }
}

/// What recording came to, with the line as text.
pub open spec fn entry_view(r: Result<Entry, TmgError>) -> Result<(LogKey, Seq<char>), TmgError> {
    match r {
        Ok(entry) => Ok((entry.key, entry.line@)),
        Err(e) => Err(e),
    }
}

/// What viewing the month `key` comes to, from what reading its file gave:
/// the file's name and its text unchanged; a failure where no log exists for
/// the month or it could not be read.
pub open spec fn view_spec(key: LogKey, read: Result<Seq<char>, ReadError>) -> Result<
    (Seq<char>, Seq<char>),
    TmgError,
> {
    match read {
        Ok(content) => Ok((file_name_text(key.year, key.month), content)),
        Err(e) => Err(read_failure(e)),
    }
}

/// What viewing came to, as texts.
pub open spec fn listing_view(r: Result<Listing, TmgError>) -> Result<
    (Seq<char>, Seq<char>),
    TmgError,
> {
    match r {
        Ok(listing) => Ok((listing.file_name@, listing.content@)),
        Err(e) => Err(e),
    }
}

/// Works out the recording of an event that happens at `now`: the task
/// starts or stops, at the time of day `at` where the user gave one, under
/// the tag `tag` where the user gave one.
pub fn record(now: Timestamp, action: Action, task: &str, at: Option<&str>, tag: Option<&str>) -> (r:
    Result<Entry, TmgError>)
    ensures
        entry_view(r) == record_spec(now, action, task@, text_of(at), text_of(tag)),
        at is None ==> r is Ok,
        r matches Err(e) ==> e == TmgError::InvalidTimeFormat,
{
    match resolve(now, at) {
        Ok(t) => Ok(Entry { key: t.key(), line: format_line(t, task, action, tag) }),
        Err(e) => Err(e),
    }
}

/// Works out the recording of a start of `task` at `now`.
pub fn handle_start(now: Timestamp, task: &str, at: Option<&str>, tag: Option<&str>) -> (r: Result<
    Entry,
    TmgError,
>)
    ensures
        entry_view(r) == record_spec(now, Action::Start, task@, text_of(at), text_of(tag)),
{
    record(now, Action::Start, task, at, tag)
}

/// Works out the recording of a stop of `task` at `now`.
pub fn handle_stop(now: Timestamp, task: &str, at: Option<&str>, tag: Option<&str>) -> (r: Result<
    Entry,
    TmgError,
>)
    ensures
        entry_view(r) == record_spec(now, Action::Stop, task@, text_of(at), text_of(tag)),
{
    record(now, Action::Stop, task, at, tag)
}

/// Works out the recording of an event that happens now, by the local clock.
/// Whatever the clock shows, the result is that of `record` at some minute of
/// the calendar.
pub fn write_command(action: Action, task: &str, at: Option<&str>, tag: Option<&str>) -> (r: Result<
    Entry,
    TmgError,
>)
    ensures
        exists|now: Timestamp|
            now.wf() && entry_view(r) == #[trigger] record_spec(
                now,
                action,
                task@,
                text_of(at),
                text_of(tag),
            ),
        at is None ==> r is Ok,
        r matches Err(e) ==> e == TmgError::InvalidTimeFormat,
{
    let now = local_now();
    let r = record(now, action, task, at, tag);
    assert(now.wf() && entry_view(r) == record_spec(now, action, task@, text_of(at), text_of(tag)));
    r
}

/// Works out what the view of the month `key` prints, from what reading the
/// month's file gave. A month without a log fails the command.
pub fn view_file_command(key: LogKey, read: Result<String, ReadError>) -> (r: Result<
    Listing,
    TmgError,
>)
    ensures
        listing_view(r) == view_spec(key, read_view(read)),
{
    match raw_text(read) {
        Ok(content) => Ok(Listing { file_name: file_name(key.year, key.month), content }),
        Err(e) => Err(e),
    }
}

/// The lines of a list of events, in the order of the list.
pub open spec fn event_lines(events: Seq<Event>) -> Seq<Seq<char>> {
    Seq::new(events.len(), |i: int| events[i].line_spec())
}

/// Events whose lines are appended one after the other to the log of a month
/// that began empty are read back as exactly their lines, in the order in
/// which they were appended; provided that each event is loggable, that is,
/// that no task or tag breaks its line in two.
pub proof fn recorded_events_are_read_back(events: Seq<Event>)
    requires
        forall|i: int|
            0 <= i < events.len() ==> loggable(
                (#[trigger] events[i]).task@,
                owned_text_of(events[i].tag),
            ),
    ensures
        lines_of(log_of(event_lines(events))) == event_lines(events),
{
    let lines = event_lines(events);
    assert forall|i: int| 0 <= i < lines.len() implies crate::eventlog::clean(
        #[trigger] lines[i],
    ) by {
        let e = events[i];
        line_of_loggable_is_clean(e.timestamp, e.task@, e.action, owned_text_of(e.tag));
    }
    appended_lines_are_read_back(lines);
}

} // verus!
