use tmg::actions::{
    handle_start, handle_stop, record, view_file_command, write_command, Entry, Listing,
};
use tmg::calendar::{log_key_for, LogKey, Timestamp};
use tmg::codec::Action;
use tmg::error::TmgError;
use tmg::eventlog::{entry_text, split_lines, ReadError};
use tmg::paths::report_path_under;

fn now() -> Timestamp {
    Timestamp { year: 2024, month: 3, day: 5, hour: 9, minute: 15 }
}

#[test]
fn start_is_recorded_in_the_month_of_now() {
    let entry = handle_start(now(), "writing", None, Some("work")).unwrap();
    assert_eq!(entry.key, LogKey { year: 2024, month: 3 });
    assert_eq!(entry.line, "2024-03-05@09:15 -> writing (start) #work");
    assert!(report_path_under(Some("/home/alice"), entry.key.year, entry.key.month)
        .ends_with("/2024-03.txt"));
    let mut log = String::from("2024-03-04@17:00 -> reading (stop)\n");
    log.push_str(&entry_text(&entry.line));
    assert_eq!(split_lines(&log), vec![
        String::from("2024-03-04@17:00 -> reading (stop)"),
        String::from("2024-03-05@09:15 -> writing (start) #work"),
    ]);
}

#[test]
fn stop_is_recorded() {
    assert_eq!(
        handle_stop(now(), "writing", None, None),
        Ok(Entry {
            key: LogKey { year: 2024, month: 3 },
            line: String::from("2024-03-05@09:15 -> writing (stop)"),
        })
    );
}

#[test]
fn start_at_a_time_of_day() {
    assert_eq!(
        handle_start(now(), "writing", Some("14:30"), None),
        Ok(Entry {
            key: LogKey { year: 2024, month: 3 },
            line: String::from("2024-03-05@14:30 -> writing (start)"),
        })
    );
}

#[test]
fn a_bad_time_of_day_records_nothing() {
    assert_eq!(handle_start(now(), "writing", Some("25:00"), None), Err(TmgError::InvalidTimeFormat));
    assert_eq!(
        handle_stop(now(), "writing", Some("later"), Some("work")),
        Err(TmgError::InvalidTimeFormat)
    );
}

#[test]
fn record_takes_the_action() {
    let started = record(now(), Action::Start, "t", None, None).unwrap();
    let stopped = record(now(), Action::Stop, "t", None, None).unwrap();
    assert_eq!(started.line, "2024-03-05@09:15 -> t (start)");
    assert_eq!(stopped.line, "2024-03-05@09:15 -> t (stop)");
}

#[test]
fn record_takes_an_empty_task() {
    assert_eq!(record(now(), Action::Start, "", None, None).unwrap().line, "2024-03-05@09:15 ->  (start)");
}

#[test]
fn write_command_records_now() {
    let entry = write_command(Action::Start, "writing", None, Some("work")).unwrap();
    assert!(1 <= entry.key.month && entry.key.month <= 12);
    assert!(entry.key.year >= 2024);
    assert!(entry.line.ends_with(" -> writing (start) #work"));
    let stamp = format!("{}-{:0>2}-", entry.key.year, entry.key.month);
    assert!(entry.line.starts_with(&stamp));
    assert_eq!(entry.line.len(), stamp.len() + "05@09:15".len() + " -> writing (start) #work".len());
}

#[test]
fn write_command_at_a_time_of_day() {
    let entry = write_command(Action::Stop, "writing", Some("14:30"), None).unwrap();
    assert!(entry.line.ends_with("@14:30 -> writing (stop)"));
    assert_eq!(
        write_command(Action::Stop, "writing", Some("25:00"), None),
        Err(TmgError::InvalidTimeFormat)
    );
}

#[test]
fn view_of_a_month_without_log_fails() {
    let key = log_key_for(now(), Some("2023-01")).unwrap();
    assert_eq!(key, LogKey { year: 2023, month: 1 });
    assert_eq!(view_file_command(key, Err(ReadError::NotFound)), Err(TmgError::LogNotFound));
}

#[test]
fn view_of_a_log_that_cannot_be_read_fails() {
    let key = LogKey { year: 2023, month: 1 };
    assert_eq!(view_file_command(key, Err(ReadError::Io)), Err(TmgError::Io));
}

#[test]
fn view_prints_the_log_as_it_is() {
    let key = log_key_for(now(), None).unwrap();
    let content = String::from("2024-03-05@09:15 -> writing (start) #work\r\nlast");
    assert_eq!(
        view_file_command(key, Ok(content.clone())),
        Ok(Listing { file_name: String::from("2024-03.txt"), content })
    );
}

#[test]
fn view_of_a_bad_month_fails_before_reading() {
    assert_eq!(log_key_for(now(), Some("2023-13")), Err(TmgError::InvalidDateFormat));
}
