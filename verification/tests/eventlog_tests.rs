use std::io::{BufRead, Cursor};
use tmg::error::TmgError;
use tmg::eventlog::{entry_text, get_file_lines, raw_text, split_lines, ReadError};

fn texts(lines: &[&str]) -> Vec<String> {
    lines.iter().map(|l| String::from(*l)).collect()
}

#[test]
fn empty_text_has_no_lines() {
    assert_eq!(split_lines(""), texts(&[]));
}

#[test]
fn whole_lines() {
    assert_eq!(split_lines("a\n"), texts(&["a"]));
    assert_eq!(split_lines("a\nb\n"), texts(&["a", "b"]));
}

#[test]
fn last_line_without_line_feed() {
    assert_eq!(split_lines("a\nb"), texts(&["a", "b"]));
    assert_eq!(split_lines("a"), texts(&["a"]));
}

#[test]
fn empty_lines_are_lines() {
    assert_eq!(split_lines("\n"), texts(&[""]));
    assert_eq!(split_lines("\n\n"), texts(&["", ""]));
    assert_eq!(split_lines("a\n\nb\n"), texts(&["a", "", "b"]));
}

#[test]
fn carriage_return_before_line_feed_is_dropped() {
    assert_eq!(split_lines("a\r\nb\r\n"), texts(&["a", "b"]));
    assert_eq!(split_lines("a\r\r\n"), texts(&["a\r"]));
    assert_eq!(split_lines("\r\n"), texts(&[""]));
}

#[test]
fn carriage_return_elsewhere_stays() {
    assert_eq!(split_lines("a\rb\n"), texts(&["a\rb"]));
    assert_eq!(split_lines("a\r"), texts(&["a\r"]));
    assert_eq!(split_lines("\ra\n"), texts(&["\ra"]));
}

#[test]
fn lines_of_other_scripts() {
    assert_eq!(split_lines("\u{e9}t\u{e9}\n\u{4e2d}\u{6587}\r\n\u{1f600}"), texts(&[
        "\u{e9}t\u{e9}",
        "\u{4e2d}\u{6587}",
        "\u{1f600}",
    ]));
}

#[test]
fn lines_are_those_of_a_buffered_reader() {
    let contents = [
        "",
        "a",
        "a\n",
        "a\nb",
        "a\r\nb\r\n",
        "\n\n\n",
        "a\r",
        "\r",
        "\r\n\r\n",
        "x\r\r\ny",
        "2024-03-05@09:15 -> writing (start) #work\n2024-03-05@10:00 -> writing (stop)\n",
    ];
    for content in contents.iter() {
        let expected: Vec<String> =
            Cursor::new(content.as_bytes()).lines().map(|l| l.unwrap()).collect();
        assert_eq!(split_lines(content), expected);
    }
}

#[test]
fn entry_is_the_line_and_a_line_feed() {
    assert_eq!(entry_text("abc"), "abc\n");
    assert_eq!(entry_text(""), "\n");
}

#[test]
fn appended_lines_are_read_back_in_order() {
    let lines = ["2024-03-05@09:15 -> a (start) #work", "2024-03-05@09:45 -> a (stop)", "", "x y"];
    let mut log = String::new();
    for (n, line) in lines.iter().enumerate() {
        log.push_str(&entry_text(line));
        assert_eq!(split_lines(&log), texts(&lines[..n + 1]));
    }
}

#[test]
fn a_line_feed_in_a_line_makes_two_lines() {
    let mut log = String::new();
    log.push_str(&entry_text("one\ntwo"));
    assert_eq!(split_lines(&log), texts(&["one", "two"]));
}

#[test]
fn lines_of_a_log() {
    assert_eq!(get_file_lines(Ok(String::from("a\nb\n"))), Ok(texts(&["a", "b"])));
}

#[test]
fn lines_of_an_empty_log() {
    assert_eq!(get_file_lines(Ok(String::new())), Ok(texts(&[])));
}

#[test]
fn lines_of_a_month_without_log_fail() {
    assert_eq!(get_file_lines(Err(ReadError::NotFound)), Err(TmgError::LogNotFound));
}

#[test]
fn a_month_without_log_is_told_from_an_empty_log() {
    assert_ne!(get_file_lines(Err(ReadError::NotFound)), get_file_lines(Ok(String::new())));
}

#[test]
fn lines_of_a_log_that_cannot_be_read_fail() {
    assert_eq!(get_file_lines(Err(ReadError::Io)), Err(TmgError::Io));
}

#[test]
fn raw_text_is_the_text() {
    assert_eq!(raw_text(Ok(String::from("a\r\nb"))), Ok(String::from("a\r\nb")));
}

#[test]
fn raw_text_of_a_month_without_log() {
    assert_eq!(raw_text(Err(ReadError::NotFound)), Err(TmgError::LogNotFound));
    assert_eq!(raw_text(Err(ReadError::Io)), Err(TmgError::Io));
}

#[test]
fn error_messages() {
    assert_eq!(TmgError::InvalidTimeFormat.message(), "Cannot parse time. Should use format HH:MM.");
    assert_eq!(
        TmgError::InvalidDateFormat.message(),
        "Cannot parse date. Should use format YYYY-MM."
    );
    assert_eq!(TmgError::LogNotFound.message(), "Cannot open file");
    assert_eq!(TmgError::Io.message(), "Cannot read or write file");
    assert_eq!(TmgError::DirectoryCreation.message(), "Cannot create reports folder");
}

#[test]
fn lines_rejoined_give_the_text() {
    let contents = ["", "a\n", "a\nb\n", "\n\n", "x y\n\nz\r\u{e9}\n"];
    for content in contents.iter() {
        let mut log = String::new();
        for line in split_lines(content).iter() {
            log.push_str(&entry_text(line));
        }
        assert_eq!(log, *content);
    }
}

#[test]
fn a_carriage_return_before_a_line_feed_is_not_rejoined() {
    let mut log = String::new();
    for line in split_lines("a\r\n").iter() {
        log.push_str(&entry_text(line));
    }
    assert_eq!(log, "a\n");
}
