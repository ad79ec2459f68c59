//! The line that stands for an event in a log.
//!
//! A line is laid out as
//! `{year}-{month:02}-{day:02}@{hour:02}:{minute:02} -> {task} ({action})`,
//! followed by ` #{tag}` where the event has a tag. Lines are written and
//! shown; they are never read back into events.

use crate::calendar::Timestamp;
use crate::eventlog::clean;
use crate::text::{
    digit_char, no_line_feed, no_line_feed_in_both, numerals_hold_no_line_feed, owned_text_of,
    padded2, padded2_is_two_wide, push_padded2, push_signed_decimal, signed_decimal, text_of,
};
use vstd::prelude::*;
use vstd::string::*;

verus! {

/// What an event records of a task.
#[derive(Clone, Copy, Debug, PartialEq, Eq, Structural)]
pub enum Action {
    Start,
    Stop,
}

impl Action {
    /// The word that a line shows for the action.
    pub open spec fn name_text(self) -> Seq<char> {
        match self {
            Action::Start => "start"@,
            Action::Stop => "stop"@,
        }
    }

    /// The word that a line shows for the action.
    pub fn name(self) -> (s: &'static str)
        ensures
            s@ == self.name_text(),
    {
        match self {
            Action::Start => "start",
            Action::Stop => "stop",
        }
    }
}

/// One start or stop of a task.
#[derive(Clone, Debug, PartialEq, Eq)]
pub struct Event {
    pub action: Action,
    pub task: String,
    pub timestamp: Timestamp,
    pub tag: Option<String>,
}

/// How a line shows a minute: `{year}-{month:02}-{day:02}@{hour:02}:{minute:02}`.
pub open spec fn stamp_text(t: Timestamp) -> Seq<char> {
    signed_decimal(t.year as int) + "-"@ + padded2(t.month as nat) + "-"@ + padded2(t.day as nat)
        + "@"@ + padded2(t.hour as nat) + ":"@ + padded2(t.minute as nat)
}

/// What a line holds after the task and the action: a space, a hash sign and
/// the tag, or nothing where there is no tag.
pub open spec fn tag_text(tag: Option<Seq<char>>) -> Seq<char> {
    match tag {
        Some(t) => " #"@ + t,
        None => Seq::empty(),
    }
}

/// The line of an event.
pub open spec fn line_text(
    timestamp: Timestamp,
    task: Seq<char>,
    action: Action,
    tag: Option<Seq<char>>,
) -> Seq<char> {
    stamp_text(timestamp) + " -> "@ + task + " ("@ + action.name_text() + ")"@ + tag_text(tag)
}

impl Event {
    /// The line of this event.
    pub open spec fn line_spec(self) -> Seq<char> {
        line_text(self.timestamp, self.task@, self.action, owned_text_of(self.tag))
    }
}

/// Appends to `out` how a line shows the minute `t`.
pub fn push_stamp(out: &mut String, t: Timestamp)
    ensures
        final(out)@ == old(out)@ + stamp_text(t),
{
    push_signed_decimal(out, t.year);
    out.append("-");
    push_padded2(out, t.month);
    out.append("-");
    push_padded2(out, t.day);
    out.append("@");
    push_padded2(out, t.hour);
    out.append(":");
    push_padded2(out, t.minute);
    assert(out@ =~= old(out)@ + stamp_text(t));
}

/// Lays out the line of an event from its parts.
pub fn format_line(timestamp: Timestamp, task: &str, action: Action, tag: Option<&str>) -> (line:
    String)
    ensures
        line@ == line_text(timestamp, task@, action, text_of(tag)),
{
    let mut line = String::new();
    push_stamp(&mut line, timestamp);
    line.append(" -> ");
    line.append(task);
    line.append(" (");
    line.append(action.name());
    line.append(")");
    match tag {
        Some(t) => {
            line.append(" #");
            line.append(t);
        },
        None => {},
    }
    assert(line@ =~= line_text(timestamp, task@, action, text_of(tag)));
    line
}

/// Lays out the line of an event.
pub fn format_event(event: &Event) -> (line: String)
    ensures
        line@ == event.line_spec(),
{
    let tag: Option<&str> = match &event.tag {
        Some(t) => Some(t.as_str()),
        None => None,
    };
    format_line(event.timestamp, event.task.as_str(), event.action, tag)
}

/// A line depends on nothing but the event: two events with the same time,
/// task, action and tag have the same line, character for character.
pub proof fn line_is_determined_by_event(a: Event, b: Event)
    requires
        a.timestamp == b.timestamp,
        a.task@ == b.task@,
        a.action == b.action,
        owned_text_of(a.tag) == owned_text_of(b.tag),
    ensures
        a.line_spec() == b.line_spec(),
{
}

/// The tag's part of a line is there exactly where the event has a tag, and
/// the line ends with it.
pub proof fn line_ends_with_tag(
    timestamp: Timestamp,
    task: Seq<char>,
    action: Action,
    tag: Option<Seq<char>>,
)
    ensures
        tag is None ==> line_text(timestamp, task, action, tag) == line_text(
            timestamp,
            task,
            action,
            None,
        ),
        tag matches Some(t) ==> line_text(timestamp, task, action, tag) == line_text(
            timestamp,
            task,
            action,
            None,
        ) + seq![' ', '#'] + t,
{
    reveal_strlit(" #");
    match tag {
        Some(t) => {
            assert(" #"@ =~= seq![' ', '#']);
            assert(line_text(timestamp, task, action, tag) =~= line_text(
                timestamp,
                task,
                action,
                None,
            ) + seq![' ', '#'] + t);
        },
        None => {},
    }
}

/// The fields of a stamp have fixed widths: after the year, each of month,
/// day, hour and minute fills two places, with a zero before a single digit.
pub proof fn stamp_has_fixed_fields(t: Timestamp)
    requires
        t.wf(),
    ensures
        stamp_text(t) == signed_decimal(t.year as int) + seq![
            '-',
            digit_char(t.month as int / 10),
            digit_char(t.month as int % 10),
            '-',
            digit_char(t.day as int / 10),
            digit_char(t.day as int % 10),
            '@',
            digit_char(t.hour as int / 10),
            digit_char(t.hour as int % 10),
            ':',
            digit_char(t.minute as int / 10),
            digit_char(t.minute as int % 10),
        ],
        stamp_text(t).len() == signed_decimal(t.year as int).len() + 12,
{
    reveal_strlit("-");
    reveal_strlit("@");
    reveal_strlit(":");
    padded2_is_two_wide(t.month as nat);
    padded2_is_two_wide(t.day as nat);
    padded2_is_two_wide(t.hour as nat);
    padded2_is_two_wide(t.minute as nat);
    assert("-"@ =~= seq!['-']);
    assert("@"@ =~= seq!['@']);
    assert(":"@ =~= seq![':']);
    assert(stamp_text(t) =~= signed_decimal(t.year as int) + seq![
        '-',
        digit_char(t.month as int / 10),
        digit_char(t.month as int % 10),
        '-',
        digit_char(t.day as int / 10),
        digit_char(t.day as int % 10),
        '@',
        digit_char(t.hour as int / 10),
        digit_char(t.hour as int % 10),
        ':',
        digit_char(t.minute as int / 10),
        digit_char(t.minute as int % 10),
    ]);
}

/// An event can be logged as one line where neither its task nor its tag
/// holds a line feed and its tag does not end with a carriage return.
pub open spec fn loggable(task: Seq<char>, tag: Option<Seq<char>>) -> bool {
    &&& no_line_feed(task)
    &&& tag matches Some(t) ==> clean(t)
}

/// The line of a loggable event is clean: a log gives it back as it is.
pub proof fn line_of_loggable_is_clean(
    timestamp: Timestamp,
    task: Seq<char>,
    action: Action,
    tag: Option<Seq<char>>,
)
    requires
        loggable(task, tag),
    ensures
        clean(line_text(timestamp, task, action, tag)),
{
    reveal_strlit("-");
    reveal_strlit("@");
    reveal_strlit(":");
    reveal_strlit(" -> ");
    reveal_strlit(" (");
    reveal_strlit(")");
    reveal_strlit(" #");
    reveal_strlit("start");
    reveal_strlit("stop");
    numerals_hold_no_line_feed(timestamp.year as int, timestamp.month as nat);
    numerals_hold_no_line_feed(0, timestamp.day as nat);
    numerals_hold_no_line_feed(0, timestamp.hour as nat);
    numerals_hold_no_line_feed(0, timestamp.minute as nat);
    let y = signed_decimal(timestamp.year as int);
    let m = padded2(timestamp.month as nat);
    let d = padded2(timestamp.day as nat);
    let h = padded2(timestamp.hour as nat);
    let n = padded2(timestamp.minute as nat);
    no_line_feed_in_both(y, "-"@);
    no_line_feed_in_both(y + "-"@, m);
    no_line_feed_in_both(y + "-"@ + m, "-"@);
    no_line_feed_in_both(y + "-"@ + m + "-"@, d);
    no_line_feed_in_both(y + "-"@ + m + "-"@ + d, "@"@);
    no_line_feed_in_both(y + "-"@ + m + "-"@ + d + "@"@, h);
    no_line_feed_in_both(y + "-"@ + m + "-"@ + d + "@"@ + h, ":"@);
    no_line_feed_in_both(y + "-"@ + m + "-"@ + d + "@"@ + h + ":"@, n);
    let stamp = stamp_text(timestamp);
    assert(no_line_feed(stamp));
    no_line_feed_in_both(stamp, " -> "@);
    no_line_feed_in_both(stamp + " -> "@, task);
    no_line_feed_in_both(stamp + " -> "@ + task, " ("@);
    assert(no_line_feed(action.name_text()));
    no_line_feed_in_both(stamp + " -> "@ + task + " ("@, action.name_text());
    no_line_feed_in_both(stamp + " -> "@ + task + " ("@ + action.name_text(), ")"@);
    let body = stamp + " -> "@ + task + " ("@ + action.name_text() + ")"@;
    assert(body.last() == ')');
    match tag {
        Some(t) => {
            no_line_feed_in_both(" #"@, t);
            no_line_feed_in_both(body, " #"@ + t);
            let line = body + (" #"@ + t);
            assert(line_text(timestamp, task, action, tag) == line);
            if t.len() > 0 {
                assert(line.last() == t.last());
            } else {
                assert(line.last() == '#');
            }
        },
        None => {
            assert(body + Seq::<char>::empty() =~= body);
        },
    }
}

} // verus!
