//! The browser: the lines of one month's log, one of them selected, and the
//! keys that move the selection or turn to another month.
//!
//! The browser decides; the program around it draws the lines, waits for a
//! key and reads the log of the month that is turned to.

use crate::calendar::{local_now, shifted, shifted_spec, CalendarDate, LogKey};
use crate::error::TmgError;
use crate::eventlog::{
    get_file_lines, get_file_lines_spec, lines_of, read_view, views_of, ReadError,
};
use crate::paths::{file_stem, file_stem_text};
use vstd::prelude::*;
use vstd::string::*;

verus! {

/// The number of days that one turn of the page moves the browser's date.
/// A page is this many days, not a month of the calendar: turning from the
/// end of a long month may skip the next one, and turning from its start may
/// stay within it.
pub const PAGE_DAYS: i64 = 30;

/// One page back, in days.
pub const PAGE_BACK: i64 = -30;

/// What the browser shows: the lines of a month's log, which of them is
/// selected, and the date whose month it is.
pub struct BrowserState {
    pub selected: Option<nat>,
    pub date: CalendarDate,
    pub lines: Seq<Seq<char>>,
}

/// A key, as far as the browser tells keys apart.
#[derive(Clone, Copy, Debug, PartialEq, Eq, Structural)]
pub enum Key {
    Up,
    Down,
    Left,
    Right,
    Char(char),
    Other,
}

/// What the program does after a key.
#[derive(Clone, Copy, Debug, PartialEq, Eq, Structural)]
pub enum Step {
    /// Draw again and wait for the next key.
    Redraw,
    /// Read the log of this month and hand it to `previous_date`.
    PageBack(LogKey),
    /// Read the log of this month and hand it to `next_date`.
    PageForward(LogKey),
    /// Leave the browser.
    Quit,
}

/// The browser.
pub struct App {
    items: Vec<String>,
    selected: Option<usize>,
    current_date: CalendarDate,
}

/// The place of a line among the lines, as a number.
pub open spec fn place_of(i: Option<usize>) -> Option<nat> {
    match i {
        Some(k) => Some(k as nat),
        None => None,
    }
}

/// A selection points at one of the lines, and there is one exactly where
/// there are lines.
pub open spec fn well_formed(s: BrowserState) -> bool {
    match s.selected {
        Some(i) => i < s.lines.len(),
        None => s.lines.len() == 0,
    }
}

/// What the browser shows when it has turned to the month of `date` and
/// found `lines` there: the first line is selected, if there is one.
pub open spec fn opened(date: CalendarDate, lines: Seq<Seq<char>>) -> BrowserState {
    BrowserState {
        selected: if lines.len() > 0 {
            Some(0nat)
        } else {
            None
        },
        date,
        lines,
    }
}

/// The browser after "select next": the selection moves down by one line and
/// from the last line to the first. Without a selection, or without lines,
/// nothing changes.
pub open spec fn after_next(s: BrowserState) -> BrowserState {
    match s.selected {
        Some(i) => if s.lines.len() == 0 {
            s
        } else if i + 1 >= s.lines.len() {
            BrowserState { selected: Some(0nat), ..s }
        } else {
            BrowserState { selected: Some(i + 1), ..s }
        },
        None => s,
    }
}

/// The browser after "select previous": the selection moves up by one line
/// and from the first line to the last. Without a selection, or without
/// lines, nothing changes.
pub open spec fn after_previous(s: BrowserState) -> BrowserState {
    match s.selected {
        Some(i) => if s.lines.len() == 0 {
            s
        } else if i == 0 {
            BrowserState { selected: Some((s.lines.len() - 1) as nat), ..s }
        } else {
            BrowserState { selected: Some((i - 1) as nat), ..s }
        },
        None => s,
    }
}

/// The lines that the browser shows for a month, from what reading the
/// month's log gave: the lines of the log. To the browser a month without a
/// log is a month without lines, not a failure; any other failure to read
/// stays one.
pub open spec fn shown_lines(read: Result<Seq<char>, ReadError>) -> Result<
    Seq<Seq<char>>,
    TmgError,
> {
    match get_file_lines_spec(read) {
        Ok(lines) => Ok(lines),
        Err(TmgError::LogNotFound) => Ok(Seq::empty()),
        Err(e) => Err(e),
    }
}

/// The browser after it was asked to show the month of `date`, where reading
/// that month's log gave `read`: the date and the lines are replaced
/// together and the selection starts anew; a month without a log has no
/// lines. Where the log could not be read, nothing changes.
pub open spec fn after_show(s: BrowserState, date: CalendarDate, read: Result<Seq<char>, ReadError>) -> (
    BrowserState,
    Result<(), TmgError>,
) {
    match shown_lines(read) {
        Ok(lines) => (opened(date, lines), Ok(())),
        Err(e) => (s, Err(e)),
    }
}

/// The browser after a turn of the page to `target`, the date a page away,
/// where reading that date's month gave `read`. Where the calendar has no
/// such date, nothing changes and the answer is `false`.
pub open spec fn after_page(
    s: BrowserState,
    target: Option<CalendarDate>,
    read: Result<Seq<char>, ReadError>,
) -> (BrowserState, Result<bool, TmgError>) {
    match target {
        Some(date) => match shown_lines(read) {
            Ok(lines) => (opened(date, lines), Ok(true)),
            Err(e) => (s, Err(e)),
        },
        None => (s, Ok(false)),
    }
}

/// What a turn of the page asks the program to do: to read the month of the
/// date a page away, or only to draw again where the calendar has no such
/// date.
pub open spec fn page_step(target: Option<CalendarDate>, back: bool) -> Step {
    match target {
        Some(date) => if back {
            Step::PageBack(date.spec_key())
        } else {
            Step::PageForward(date.spec_key())
        },
        None => Step::Redraw,
    }
}

/// The browser after a key, and what the program does next. The arrows up
/// and down move the selection. The arrows left and right ask for the month
/// a page before and after; the browser itself changes only when that
/// month's log is handed to it. A colon or a `q` leaves the browser. Any
/// other key changes nothing.
pub open spec fn after_key(s: BrowserState, key: Key) -> (BrowserState, Step) {
    match key {
        Key::Up => (after_previous(s), Step::Redraw),
        Key::Down => (after_next(s), Step::Redraw),
        Key::Left => (s, page_step(shifted_spec(s.date, PAGE_BACK), true)),
        Key::Right => (s, page_step(shifted_spec(s.date, PAGE_DAYS), false)),
        Key::Char(c) => if c == ':' || c == 'q' {
            (s, Step::Quit)
        } else {
            (s, Step::Redraw)
        },
        Key::Other => (s, Step::Redraw),
    }
}

impl View for App {
    type V = BrowserState;

    closed spec fn view(&self) -> BrowserState {
        BrowserState {
            selected: place_of(self.selected),
            date: self.current_date,
            lines: views_of(self.items@),
        }
    }
}

impl App {
    #[verifier::type_invariant]
    spec fn inv(self) -> bool {
        match self.selected {
            Some(i) => i < self.items.len(),
            None => self.items.len() == 0,
        }
    }

    /// A browser that shows `items` as the lines of the month of `today`.
    pub fn starting(today: CalendarDate, items: Vec<String>) -> (app: App)
        ensures
            app@ == opened(today, views_of(items@)),
    {
        let selected = if items.len() > 0 {
            Some(0)
        } else {
            None
        };
        App { items, selected, current_date: today }
    }

    /// A browser that shows `items` as the lines of the current month, by the
    /// local clock.
    pub fn new(items: Vec<String>) -> (app: App)
        ensures
            exists|today: CalendarDate|
                today.wf() && app@ == #[trigger] opened(today, views_of(items@)),
    {
        let today = local_now().date();
        let app = App::starting(today, items);
        assert(today.wf() && app@ == opened(today, views_of(items@)));
        app
    }

    /// The line that is selected, by its place among the lines.
    pub fn selected(&self) -> (i: Option<usize>)
        ensures
            place_of(i) == self@.selected,
            well_formed(self@),
    {
        proof {
            use_type_invariant(self);
        }
        self.selected
    }

    /// The lines that are shown.
    pub fn items(&self) -> (items: &Vec<String>)
        ensures
            views_of(items@) == self@.lines,
    {
        &self.items
    }

    /// The date whose month is shown.
    pub fn current_date(&self) -> (date: CalendarDate)
        ensures
            date == self@.date,
    {
        self.current_date
    }

    /// The month that is shown.
    pub fn key(&self) -> (key: LogKey)
        ensures
            key == self@.date.spec_key(),
    {
        self.current_date.key()
    }

    /// The title of the month that is shown: `{year}-{month:02}`.
    pub fn title(&self) -> (title: String)
        ensures
            title@ == file_stem_text(self@.date.year, self@.date.month),
    {
        file_stem(self.current_date.year, self.current_date.month)
    }

    /// Selects the next line; from the last line, the first.
    pub fn next(&mut self)
        ensures
            final(self)@ == after_next(old(self)@),
    {
        proof {
            use_type_invariant(&*self);
        }
        match self.selected {
            Some(i) => {
                let n = self.items.len();
                if n == 0 {
                } else if i >= n - 1 {
                    self.selected = Some(0);
                } else {
                    self.selected = Some(i + 1);
                }
            },
            None => {},
        }
    }

    /// Selects the previous line; from the first line, the last.
    pub fn previous(&mut self)
        ensures
            final(self)@ == after_previous(old(self)@),
    {
        proof {
            use_type_invariant(&*self);
        }
        match self.selected {
            Some(i) => {
                let n = self.items.len();
                if n == 0 {
                } else if i == 0 {
                    self.selected = Some(n - 1);
                } else {
                    self.selected = Some(i - 1);
                }
            },
            None => {},
        }
    }

    /// Turns to the month of `date`, where reading that month's log gave
    /// `read`.
    pub fn show(&mut self, date: CalendarDate, read: Result<String, ReadError>) -> (r: Result<
        (),
        TmgError,
    >)
        ensures
            (final(self)@, r) == after_show(old(self)@, date, read_view(read)),
    {
        match get_file_lines(read) {
            Ok(items) => {
                *self = App::starting(date, items);
                Ok(())
            },
            Err(TmgError::LogNotFound) => {
                let none: Vec<String> = Vec::new();
                assert(views_of(none@) =~= Seq::<Seq<char>>::empty());
                *self = App::starting(date, none);
                Ok(())
            },
            Err(e) => Err(e),
        }
    }

    /// Turns one page back: to the month of the date thirty days before the
    /// browser's, where reading that month's log gave `read`. The answer is
    /// `false`, and nothing changes, where the calendar has no such date.
    pub fn previous_date(&mut self, read: Result<String, ReadError>) -> (r: Result<bool, TmgError>)
        ensures
            (final(self)@, r) == after_page(
                old(self)@,
                shifted_spec(old(self)@.date, PAGE_BACK),
                read_view(read),
            ),
    {
        self.page_to(shifted(self.current_date, PAGE_BACK), read)
    }

    /// Turns one page forward: to the month of the date thirty days after
    /// the browser's, where reading that month's log gave `read`. The answer
    /// is `false`, and nothing changes, where the calendar has no such date.
    pub fn next_date(&mut self, read: Result<String, ReadError>) -> (r: Result<bool, TmgError>)
        ensures
            (final(self)@, r) == after_page(
                old(self)@,
                shifted_spec(old(self)@.date, PAGE_DAYS),
                read_view(read),
            ),
    {
        self.page_to(shifted(self.current_date, PAGE_DAYS), read)
    }

    /// Turns to the month of `target`, the date that was found a page away,
    /// where reading that month's log gave `read`.
    pub fn page_to(&mut self, target: Option<CalendarDate>, read: Result<String, ReadError>) -> (r:
        Result<bool, TmgError>)
        ensures
            (final(self)@, r) == after_page(old(self)@, target, read_view(read)),
    {
        match target {
            Some(date) => match self.show(date, read) {
                Ok(()) => Ok(true),
                Err(e) => Err(e),
            },
            None => Ok(false),
        }
    }

    /// Takes a key: moves the selection, or says what the program does next.
    pub fn on_key(&mut self, key: Key) -> (step: Step)
        ensures
            (final(self)@, step) == after_key(old(self)@, key),
    {
        match key {
            Key::Up => {
                self.previous();
                Step::Redraw
            },
            Key::Down => {
                self.next();
                Step::Redraw
            },
            Key::Left => App::step_to(shifted(self.current_date, PAGE_BACK), true),
            Key::Right => App::step_to(shifted(self.current_date, PAGE_DAYS), false),
            Key::Char(c) => if c == ':' || c == 'q' {
                Step::Quit
            } else {
                Step::Redraw
            },
            Key::Other => Step::Redraw,
        }
    }

    /// What a turn of the page asks the program to do, where `target` is the
    /// date that was found a page away.
    pub fn step_to(target: Option<CalendarDate>, back: bool) -> (step: Step)
        ensures
            step == page_step(target, back),
    {
        match target {
            Some(date) => if back {
                Step::PageBack(date.key())
            } else {
                Step::PageForward(date.key())
            },
            None => Step::Redraw,
        }
    }
}

/// Every move of the browser keeps what it shows well formed.
pub proof fn moves_keep_well_formed(
    s: BrowserState,
    key: Key,
    date: CalendarDate,
    target: Option<CalendarDate>,
    read: Result<Seq<char>, ReadError>,
)
    requires
        well_formed(s),
    ensures
        well_formed(after_next(s)),
        well_formed(after_previous(s)),
        well_formed(after_key(s, key).0),
        well_formed(after_show(s, date, read).0),
        well_formed(after_page(s, target, read).0),
{
}

/// The selection wraps: from the last line "select next" goes to the first,
/// and from the first line "select previous" goes to the last. Neither
/// changes the lines or the date.
pub proof fn selection_wraps(s: BrowserState)
    requires
        well_formed(s),
        s.lines.len() > 0,
    ensures
        s.selected == Some((s.lines.len() - 1) as nat) ==> after_next(s).selected == Some(0nat),
        s.selected == Some(0nat) ==> after_previous(s).selected == Some(
            (s.lines.len() - 1) as nat,
        ),
        after_next(s).lines == s.lines && after_next(s).date == s.date,
        after_previous(s).lines == s.lines && after_previous(s).date == s.date,
        after_next(s).selected is Some && after_previous(s).selected is Some,
{
}

/// "Select next" and "select previous" undo each other.
pub proof fn next_and_previous_are_inverse(s: BrowserState)
    requires
        well_formed(s),
    ensures
        after_previous(after_next(s)) == s,
        after_next(after_previous(s)) == s,
{
}

/// Without lines there is no selection, and "select next" and "select
/// previous" change nothing.
pub proof fn empty_browser_has_no_selection(s: BrowserState)
    requires
        well_formed(s),
        s.lines.len() == 0,
    ensures
        s.selected is None,
        after_next(s) == s,
        after_previous(s) == s,
{
}

/// A turn of the page replaces the date and the lines together and starts
/// the selection anew: at the first line, or nowhere where the month has no
/// lines. The lines are those of the month's log; a month without a log is
/// a month without lines. Where the log is there and cannot be read, the
/// turn fails and nothing changes.
pub proof fn page_replaces_date_and_lines(
    s: BrowserState,
    date: CalendarDate,
    read: Result<Seq<char>, ReadError>,
)
    ensures
        read matches Ok(content) ==> after_page(s, Some(date), read) == (
            opened(date, lines_of(content)),
            Ok::<bool, TmgError>(true),
        ),
        read matches Err(ReadError::NotFound) ==> after_page(s, Some(date), read) == (
            opened(date, Seq::empty()),
            Ok::<bool, TmgError>(true),
        ),
        read matches Err(ReadError::Io) ==> after_page(s, Some(date), read) == (
            s,
            Err::<bool, TmgError>(TmgError::Io),
        ),
        after_page(s, Some(date), read).1 is Ok ==> {
            let t = after_page(s, Some(date), read).0;
            &&& t.date == date
            &&& t.selected == if t.lines.len() > 0 {
                Some(0nat)
            } else {
                None
            }
        },
{
}

} // verus!
