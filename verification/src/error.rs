//! The ways in which a command can fail.

use vstd::prelude::*;
use vstd::string::*;

verus! {

/// Why a command was given up.
#[derive(Clone, Copy, Debug, PartialEq, Eq, Structural)]
pub enum TmgError {
    /// A time of day was not of the form `HH:MM` on a 24-hour clock.
    InvalidTimeFormat,
    /// A month was not of the form `YYYY-MM`.
    InvalidDateFormat,
    /// No log has been written for the month that was asked for.
    LogNotFound,
    /// The file system refused to open, read or write a log.
    Io,
    /// The directory that holds the logs could not be made.
    DirectoryCreation,
}

/// The sentence that tells a user of a failure.
pub open spec fn message_text(e: TmgError) -> Seq<char> {
    match e {
        TmgError::InvalidTimeFormat => "Cannot parse time. Should use format HH:MM."@,
        TmgError::InvalidDateFormat => "Cannot parse date. Should use format YYYY-MM."@,
        TmgError::LogNotFound => "Cannot open file"@,
        TmgError::Io => "Cannot read or write file"@,
        TmgError::DirectoryCreation => "Cannot create reports folder"@,
    }
}

impl TmgError {
    /// The sentence that tells a user of this failure.
    pub fn message(&self) -> (s: String)
        ensures
            s@ == message_text(*self),
    {
        match self {
            TmgError::InvalidTimeFormat => String::from_str(
                "Cannot parse time. Should use format HH:MM.",
            ),
            TmgError::InvalidDateFormat => String::from_str(
                "Cannot parse date. Should use format YYYY-MM.",
            ),
            TmgError::LogNotFound => String::from_str("Cannot open file"),
            TmgError::Io => String::from_str("Cannot read or write file"),
            TmgError::DirectoryCreation => String::from_str("Cannot create reports folder"),
        }
    }
}

} // verus!
