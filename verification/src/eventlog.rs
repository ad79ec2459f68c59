//! The text of a month's log, and the lines it falls into.
//!
//! A log grows by whole lines: an entry is the line followed by one line
//! feed. Read back, the text falls into its lines at the line feeds; a
//! carriage return just before a line feed belongs to the line's end.

use crate::error::TmgError;
use crate::text::no_line_feed;
use vstd::prelude::*;
use vstd::string::*;

verus! {

/// Where the first line feed of `s` stands; the length of `s` where it has
/// none.
pub open spec fn first_newline(s: Seq<char>) -> int
    decreases s.len(),
{
    if s.len() == 0 {
        0
    } else if s[0] == '\n' {
        0
    } else {
        1 + first_newline(s.drop_first())
    }
}

/// A line without the carriage return that may end it.
pub open spec fn without_cr(line: Seq<char>) -> Seq<char> {
    if line.len() > 0 && line.last() == '\r' {
        line.drop_last()
    } else {
        line
    }
}

/// The lines of a text: what stands before each line feed, and what follows
/// the last one if anything does.
pub open spec fn lines_of(content: Seq<char>) -> Seq<Seq<char>>
    decreases content.len(),
{
    if content.len() == 0 {
        Seq::empty()
    } else {
        let n = first_newline(content);
        if 0 <= n < content.len() {
            seq![without_cr(content.take(n))] + lines_of(content.skip(n + 1))
        } else {
            seq![content]
        }
    }
}

/// The texts of a list of lines.
pub open spec fn views_of(lines: Seq<String>) -> Seq<Seq<char>> {
    Seq::new(lines.len(), |i: int| lines[i]@)
}

/// `first_newline` is the place of a line feed before which none stands.
pub proof fn first_newline_is_at(s: Seq<char>, k: int)
    requires
        0 <= k <= s.len(),
        forall|j: int| 0 <= j < k ==> s[j] != '\n',
        k < s.len() ==> s[k] == '\n',
    ensures
        first_newline(s) == k,
    decreases k,
{
    if k > 0 {
        let rest = s.drop_first();
        assert forall|j: int| 0 <= j < k - 1 implies rest[j] != '\n' by {
            assert(rest[j] == s[j + 1]);
        }
        first_newline_is_at(rest, k - 1);
    }
}

/// A carriage return, where one is held back; nothing otherwise.
pub open spec fn held_back(cr: bool) -> Seq<char> {
    if cr {
        seq!['\r']
    } else {
        Seq::empty()
    }
}

/// Splits the text of a log into its lines.
pub fn split_lines(content: &str) -> (lines: Vec<String>)
    ensures
        views_of(lines@) == lines_of(content@),
{
    let mut lines: Vec<String> = Vec::new();
    // The line that is being read, but for a carriage return at its end:
    // that one is held back until the next character shows whether it ends
    // the line.
    let mut line = String::new();
    let mut cr_held = false;
    let mut begun = false;
    let ghost mut start: int = 0;
    proof {
        assert(content@.skip(0) =~= content@);
        assert(views_of(lines@) + lines_of(content@) =~= lines_of(content@));
        assert(content@.subrange(0, 0) =~= line@ + held_back(cr_held));
    }
    for c in it: content.chars()
        invariant
            it.seq() == content@,
            0 <= start <= it.index(),
            begun <==> start < it.index(),
            forall|j: int| start <= j < it.index() ==> content@[j] != '\n',
            line@ + held_back(cr_held) == content@.subrange(start, it.index() as int),
            !cr_held ==> line@.len() == 0 || line@.last() != '\r',
            lines_of(content@) == views_of(lines@) + lines_of(content@.skip(start)),
    {
        let ghost i: int = it.index() as int;
        let ghost seen = content@.subrange(start, i);
        if c == '\n' {
            proof {
                let rest = content@.skip(start);
                assert forall|j: int| 0 <= j < i - start implies rest[j] != '\n' by {
                    assert(rest[j] == content@[start + j]);
                }
                first_newline_is_at(rest, i - start);
                assert(rest.take(i - start) =~= seen);
                assert(line@ =~= without_cr(seen)) by {
                    if cr_held {
                        assert(seen.last() == '\r');
                        assert(seen.drop_last() =~= line@);
                    } else {
                        assert(seen =~= line@);
                    }
                }
                assert(rest.skip(i - start + 1) =~= content@.skip(i + 1));
                assert(views_of(lines@.push(line)) =~= views_of(lines@) + seq![line@]);
                start = i + 1;
                assert(content@.subrange(start, i + 1) =~= Seq::<char>::empty());
            }
            lines.push(line);
            line = String::new();
            cr_held = false;
            begun = false;
        } else {
            if cr_held {
                line.push('\r');
            }
            assert(line@ =~= seen);
            if c == '\r' {
                cr_held = true;
            } else {
                line.push(c);
                cr_held = false;
            }
            begun = true;
            assert(line@ + held_back(cr_held) =~= content@.subrange(start, i + 1));
        }
    }
    if begun {
        if cr_held {
            line.push('\r');
        }
        proof {
            let rest = content@.skip(start);
            assert forall|j: int| 0 <= j < rest.len() implies rest[j] != '\n' by {
                assert(rest[j] == content@[start + j]);
            }
            first_newline_is_at(rest, rest.len() as int);
            assert(line@ =~= rest);
            assert(views_of(lines@.push(line)) =~= views_of(lines@) + seq![line@]);
        }
        lines.push(line);
    } else {
        assert(content@.skip(start) =~= Seq::<char>::empty());
        assert(views_of(lines@) + Seq::<Seq<char>>::empty() =~= views_of(lines@));
    }
    lines
}

/// Why a log could not be read.
#[derive(Clone, Copy, Debug, PartialEq, Eq, Structural)]
pub enum ReadError {
    /// No file exists for the month: nothing was ever recorded in it.
    NotFound,
    /// The file exists and could not be opened or read.
    Io,
}

/// The text of a log after a line was appended to it: the line and one line
/// feed follow what was there.
pub open spec fn appended(content: Seq<char>, line: Seq<char>) -> Seq<char> {
    content + line + seq!['\n']
}

/// The text of a log that began empty and to which the lines were appended
/// one after the other.
pub open spec fn log_of(lines: Seq<Seq<char>>) -> Seq<char>
    decreases lines.len(),
{
    if lines.len() == 0 {
        Seq::empty()
    } else {
        appended(log_of(lines.drop_last()), lines.last())
    }
}

/// A text that is empty or ends with a line feed: every line in it is whole.
pub open spec fn terminated(content: Seq<char>) -> bool {
    content.len() == 0 || content.last() == '\n'
}

/// A line that comes back from a log as it went in: it holds no line feed
/// and does not end with a carriage return.
pub open spec fn clean(line: Seq<char>) -> bool {
    &&& no_line_feed(line)
    &&& !(line.len() > 0 && line.last() == '\r')
}

/// What is written to a log for a line: the line and one line feed.
pub fn entry_text(line: &str) -> (entry: String)
    ensures
        entry@ == appended(Seq::empty(), line@),
{
    let mut entry = String::from_str(line);
    proof {
        reveal_strlit("\n");
    }
    entry.append("\n");
    assert(entry@ =~= appended(Seq::empty(), line@));
    entry
}

/// How a command names a failure to read a log.
pub open spec fn read_failure(e: ReadError) -> TmgError {
    match e {
        ReadError::NotFound => TmgError::LogNotFound,
        ReadError::Io => TmgError::Io,
    }
}

/// The lines of a month's log, from what reading the log's file gave: the
/// lines of the text. That no log exists for the month is a failure of its
/// own, which a caller can tell from a log that is empty; so is any other
/// failure to read.
pub open spec fn get_file_lines_spec(read: Result<Seq<char>, ReadError>) -> Result<
    Seq<Seq<char>>,
    TmgError,
> {
    match read {
        Ok(content) => Ok(lines_of(content)),
        Err(e) => Err(read_failure(e)),
    }
}

/// The text of a month's log, from what reading the log's file gave: the
/// text as it is. That no log exists for the month is a failure of its own,
/// as is any other failure to read.
pub open spec fn raw_text_spec(read: Result<Seq<char>, ReadError>) -> Result<Seq<char>, TmgError> {
    match read {
        Ok(content) => Ok(content),
        Err(e) => Err(read_failure(e)),
    }
}

/// What was read of a log, as text.
pub open spec fn read_view(read: Result<String, ReadError>) -> Result<Seq<char>, ReadError> {
    match read {
        Ok(content) => Ok(content@),
        Err(e) => Err(e),
    }
}

/// What came of taking lines from a log, as texts.
pub open spec fn lines_view(r: Result<Vec<String>, TmgError>) -> Result<Seq<Seq<char>>, TmgError> {
    match r {
        Ok(lines) => Ok(views_of(lines@)),
        Err(e) => Err(e),
    }
}

/// What came of taking the text of a log, as text.
pub open spec fn text_view(r: Result<String, TmgError>) -> Result<Seq<char>, TmgError> {
    match r {
        Ok(content) => Ok(content@),
        Err(e) => Err(e),
    }
}

/// The lines of a month's log, from what reading the log's file gave. A
/// month without a log fails with `LogNotFound`: whether that counts as a
/// month without lines is for the caller to say.
pub fn get_file_lines(read: Result<String, ReadError>) -> (r: Result<Vec<String>, TmgError>)
    ensures
        lines_view(r) == get_file_lines_spec(read_view(read)),
        r is Ok <==> read is Ok,
{
    match read {
        Ok(content) => Ok(split_lines(content.as_str())),
        Err(ReadError::NotFound) => Err(TmgError::LogNotFound),
        Err(ReadError::Io) => Err(TmgError::Io),
    }
}

/// The text of a month's log for printing, from what reading the log's file
/// gave: a month without a log is a failure.
pub fn raw_text(read: Result<String, ReadError>) -> (r: Result<String, TmgError>)
    ensures
        text_view(r) == raw_text_spec(read_view(read)),
        r is Ok <==> read is Ok,
{
    match read {
        Ok(content) => Ok(content),
        Err(ReadError::NotFound) => Err(TmgError::LogNotFound),
        Err(ReadError::Io) => Err(TmgError::Io),
    }
}

/// The lines of two texts, one after the other, are the lines of the first
/// and then those of the second, where every line of the first is whole.
pub proof fn lines_of_whole_then_more(a: Seq<char>, b: Seq<char>)
    requires
        terminated(a),
    ensures
        lines_of(a + b) == lines_of(a) + lines_of(b),
    decreases a.len(),
{
    if a.len() == 0 {
        assert(a + b =~= b);
        assert(lines_of(a) + lines_of(b) =~= lines_of(b));
    } else {
        let n = first_newline(a);
        first_newline_is_found(a);
        assert(0 <= n < a.len()) by {
            if n == a.len() {
                assert(a[a.len() - 1] == '\n');
            }
        }
        let ab = a + b;
        assert forall|j: int| 0 <= j < n implies ab[j] != '\n' by {
            assert(ab[j] == a[j]);
        }
        assert(ab[n] == a[n]);
        first_newline_is_at(ab, n);
        assert(ab.take(n) =~= a.take(n));
        assert(ab.skip(n + 1) =~= a.skip(n + 1) + b);
        let rest = a.skip(n + 1);
        assert(terminated(rest)) by {
            if rest.len() > 0 {
                assert(rest.last() == a.last());
            }
        }
        lines_of_whole_then_more(rest, b);
        assert(lines_of(ab) =~= lines_of(a) + lines_of(b));
    }
}

/// `first_newline` lies within the text or at its end, no line feed stands
/// before it, and one stands at it where it lies within.
pub proof fn first_newline_is_found(s: Seq<char>)
    ensures
        0 <= first_newline(s) <= s.len(),
        forall|j: int| 0 <= j < first_newline(s) ==> s[j] != '\n',
        first_newline(s) < s.len() ==> s[first_newline(s)] == '\n',
    decreases s.len(),
{
    if s.len() > 0 && s[0] != '\n' {
        let rest = s.drop_first();
        first_newline_is_found(rest);
        assert forall|j: int| 0 <= j < first_newline(s) implies s[j] != '\n' by {
            if j > 0 {
                assert(s[j] == rest[j - 1]);
            }
        }
        if first_newline(s) < s.len() {
            assert(s[first_newline(s)] == rest[first_newline(rest)]);
        }
    }
}

/// A clean line followed by a line feed is read back as that one line.
pub proof fn one_entry_is_one_line(line: Seq<char>)
    requires
        clean(line),
    ensures
        lines_of(line + seq!['\n']) == seq![line],
{
    let entry = line + seq!['\n'];
    assert forall|j: int| 0 <= j < line.len() implies entry[j] != '\n' by {
        assert(entry[j] == line[j]);
    }
    assert(entry[line.len() as int] == '\n');
    first_newline_is_at(entry, line.len() as int);
    assert(entry.take(line.len() as int) =~= line);
    assert(entry.skip(line.len() as int + 1) =~= Seq::<char>::empty());
    assert(lines_of(entry.skip(line.len() as int + 1)) =~= Seq::<Seq<char>>::empty());
    assert(lines_of(entry) =~= seq![line]);
}

/// Appending a clean line to a log whose lines are whole adds that line after
/// the lines that were there, which stay as they were and in their order; and
/// the lines of the log are whole again.
pub proof fn append_adds_one_line(content: Seq<char>, line: Seq<char>)
    requires
        terminated(content),
        clean(line),
    ensures
        lines_of(appended(content, line)) == lines_of(content).push(line),
        terminated(appended(content, line)),
{
    one_entry_is_one_line(line);
    lines_of_whole_then_more(content, line + seq!['\n']);
    assert(appended(content, line) =~= content + (line + seq!['\n']));
    assert(lines_of(content) + seq![line] =~= lines_of(content).push(line));
}

/// Lines appended one after the other to a log that began empty are read
/// back exactly as they were appended and in that order, where each of them
/// is clean.
pub proof fn appended_lines_are_read_back(lines: Seq<Seq<char>>)
    requires
        forall|i: int| 0 <= i < lines.len() ==> clean(#[trigger] lines[i]),
    ensures
        lines_of(log_of(lines)) == lines,
        terminated(log_of(lines)),
    decreases lines.len(),
{
    if lines.len() == 0 {
        assert(lines_of(log_of(lines)) =~= lines);
    } else {
        let before = lines.drop_last();
        assert forall|i: int| 0 <= i < before.len() implies clean(#[trigger] before[i]) by {
            assert(before[i] == lines[i]);
        }
        appended_lines_are_read_back(before);
        append_adds_one_line(log_of(before), lines.last());
        assert(before.push(lines.last()) =~= lines);
    }
}

/// No line that is read from a text holds a line feed.
pub proof fn lines_hold_no_line_feed(content: Seq<char>)
    ensures
        forall|i: int| 0 <= i < lines_of(content).len() ==> no_line_feed(#[trigger] lines_of(content)[i]),
    decreases content.len(),
{
    if content.len() > 0 {
        let n = first_newline(content);
        first_newline_is_found(content);
        if n < content.len() {
            let head = without_cr(content.take(n));
            let rest = lines_of(content.skip(n + 1));
            lines_hold_no_line_feed(content.skip(n + 1));
            assert(no_line_feed(head)) by {
                assert forall|j: int| 0 <= j < head.len() implies head[j] != '\n' by {
                    assert(head[j] == content[j]);
                }
            }
            assert forall|i: int| 0 <= i < lines_of(content).len() implies no_line_feed(
                #[trigger] lines_of(content)[i],
            ) by {
                if i > 0 {
                    assert(lines_of(content)[i] == rest[i - 1]);
                }
            }
        }
    }
}

/// A text in which no carriage return stands just before a line feed: each
/// of its lines is read as it stands.
pub open spec fn plain_line_ends(content: Seq<char>) -> bool {
    forall|j: int| 0 < j < content.len() ==> !#[trigger] cr_lf_at(content, j)
}

/// A line feed stands at `j`, and a carriage return just before it.
pub open spec fn cr_lf_at(content: Seq<char>, j: int) -> bool {
    content[j - 1] == '\r' && content[j] == '\n'
}

/// The text of a log that was made of a first line and then of more lines is
/// the first line, a line feed, and the text made of the others.
pub proof fn log_of_first_and_rest(first: Seq<char>, rest: Seq<Seq<char>>)
    ensures
        log_of(seq![first] + rest) == first + seq!['\n'] + log_of(rest),
    decreases rest.len(),
{
    let all = seq![first] + rest;
    if rest.len() == 0 {
        assert(all.drop_last() =~= Seq::<Seq<char>>::empty());
        assert(all.last() == first);
        assert(log_of(all.drop_last()) =~= Seq::<char>::empty());
        assert(log_of(rest) =~= Seq::<char>::empty());
        assert(log_of(all) =~= first + seq!['\n'] + log_of(rest));
    } else {
        assert(all.drop_last() =~= seq![first] + rest.drop_last());
        assert(all.last() == rest.last());
        log_of_first_and_rest(first, rest.drop_last());
        assert(log_of(all) =~= first + seq!['\n'] + log_of(rest));
    }
}

/// The lines of a log, appended again one after the other to an empty log,
/// give the text of the log back; provided that every line of the text is
/// whole and that no carriage return stands just before a line feed.
pub proof fn lines_rejoin_to_the_text(content: Seq<char>)
    requires
        terminated(content),
        plain_line_ends(content),
    ensures
        log_of(lines_of(content)) == content,
    decreases content.len(),
{
    if content.len() == 0 {
        assert(lines_of(content) =~= Seq::<Seq<char>>::empty());
    } else {
        let n = first_newline(content);
        first_newline_is_found(content);
        assert(n < content.len()) by {
            if n == content.len() {
                assert(content[content.len() - 1] == '\n');
            }
        }
        let head = content.take(n);
        let tail = content.skip(n + 1);
        assert(without_cr(head) == head) by {
            if n > 0 {
                assert(head.last() == content[n - 1]);
                assert(!cr_lf_at(content, n));
            }
        }
        assert(terminated(tail)) by {
            if tail.len() > 0 {
                assert(tail.last() == content.last());
            }
        }
        assert(plain_line_ends(tail)) by {
            assert forall|j: int| 0 < j < tail.len() implies !#[trigger] cr_lf_at(tail, j) by {
                assert(tail[j] == content[n + 1 + j]);
                assert(tail[j - 1] == content[n + 1 + j - 1]);
                assert(!cr_lf_at(content, n + 1 + j));
            }
        }
        lines_rejoin_to_the_text(tail);
        log_of_first_and_rest(head, lines_of(tail));
        assert(head + seq!['\n'] + tail =~= content);
    }
}

} // verus!
