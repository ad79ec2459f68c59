//! Where the logs live: one file for each month, named
//! `{year}-{month:02}.txt`, in the directory `reports` of the directory
//! `.tmg` of the user's home.
//!
//! Paths are texts with `/` between their parts. The home directory is asked
//! of the `dirs` crate; everything after it is fixed by the month alone.

use crate::text::{
    owned_text_of, padded2, push_padded2, push_signed_decimal, signed_decimal, text_of,
};
use vstd::prelude::*;
use vstd::string::*;

verus! {

/// Calls `dirs::home_dir` and hands out the path it found as text; `None`
/// where it found none or the path is no Unicode text. Trusted, with nothing
/// claimed of the result: it depends on the user and the machine.
#[verifier::external_body]
fn home_dir_text() -> Option<String> {
    match dirs::home_dir() {
        Some(path) => match path.into_os_string().into_string() {
            Ok(text) => Some(text),
            Err(_) => None,
        },
        None => None,
    }
}

/// A path with one more part at its end: a `/` stands between the two unless
/// the path is empty or ends with one already.
pub open spec fn joined(base: Seq<char>, name: Seq<char>) -> Seq<char> {
    if base.len() == 0 {
        name
    } else if base.last() == '/' {
        base + name
    } else {
        base + seq!['/'] + name
    }
}

/// The name of a month's log without its extension: `{year}-{month:02}`.
pub open spec fn file_stem_text(year: i32, month: u32) -> Seq<char> {
    signed_decimal(year as int) + seq!['-'] + padded2(month as nat)
}

/// The name of a month's log: `{year}-{month:02}.txt`.
pub open spec fn file_name_text(year: i32, month: u32) -> Seq<char> {
    file_stem_text(year, month) + seq!['.', 't', 'x', 't']
}

/// The tool's directory under a home directory; under no directory at all
/// where the home is unknown.
pub open spec fn app_dir_text(home: Option<Seq<char>>) -> Seq<char> {
    match home {
        Some(h) => joined(h, ".tmg"@),
        None => ".tmg"@,
    }
}

/// The directory that holds the logs.
pub open spec fn report_folder_text(home: Option<Seq<char>>) -> Seq<char> {
    joined(app_dir_text(home), "reports"@)
}

/// The file that holds the log of a month.
pub open spec fn report_path_text(home: Option<Seq<char>>, year: i32, month: u32) -> Seq<char> {
    joined(report_folder_text(home), file_name_text(year, month))
}

/// Adds a part to the end of a path.
pub fn join(base: &str, name: &str) -> (path: String)
    ensures
        path@ == joined(base@, name@),
{
    let n = base.unicode_len();
    let mut path = String::from_str(base);
    if n > 0 && base.get_char(n - 1) != '/' {
        proof {
            reveal_strlit("/");
        }
        path.append("/");
    }
    path.append(name);
    assert(path@ =~= joined(base@, name@));
    path
}

/// The name of a month's log without its extension; the browser shows it as
/// the title of the month.
pub fn file_stem(year: i32, month: u32) -> (stem: String)
    ensures
        stem@ == file_stem_text(year, month),
{
    let mut stem = String::new();
    push_signed_decimal(&mut stem, year);
    proof {
        reveal_strlit("-");
    }
    stem.append("-");
    push_padded2(&mut stem, month);
    assert(stem@ =~= file_stem_text(year, month));
    stem
}

/// The name of a month's log.
pub fn file_name(year: i32, month: u32) -> (name: String)
    ensures
        name@ == file_name_text(year, month),
{
    let mut name = file_stem(year, month);
    proof {
        reveal_strlit(".txt");
    }
    name.append(".txt");
    assert(name@ =~= file_name_text(year, month));
    name
}

/// The tool's directory under the home directory given.
pub fn app_dir_under(home: Option<&str>) -> (dir: String)
    ensures
        dir@ == app_dir_text(text_of(home)),
{
    match home {
        Some(h) => join(h, ".tmg"),
        None => String::from_str(".tmg"),
    }
}

/// The directory that holds the logs, under the home directory given.
pub fn report_folder_under(home: Option<&str>) -> (dir: String)
    ensures
        dir@ == report_folder_text(text_of(home)),
{
    let app_dir = app_dir_under(home);
    join(app_dir.as_str(), "reports")
}

/// The file that holds the log of a month, under the home directory given.
/// The same home and month give the same path, whenever it is asked.
pub fn report_path_under(home: Option<&str>, year: i32, month: u32) -> (path: String)
    ensures
        path@ == report_path_text(text_of(home), year, month),
{
    let folder = report_folder_under(home);
    let name = file_name(year, month);
    join(folder.as_str(), name.as_str())
}

/// The tool's directory under the user's home directory.
pub fn get_app_dir() -> (dir: String)
    ensures
        exists|home: Option<Seq<char>>| dir@ == app_dir_text(home),
{
    let home = home_dir_text();
    let dir = match &home {
        Some(h) => app_dir_under(Some(h.as_str())),
        None => app_dir_under(None),
    };
    assert(dir@ == app_dir_text(owned_text_of(home)));
    dir
}

/// The directory that holds the logs, under the user's home directory.
pub fn get_report_folder_path() -> (dir: String)
    ensures
        exists|home: Option<Seq<char>>| dir@ == report_folder_text(home),
{
    let home = home_dir_text();
    let dir = match &home {
        Some(h) => report_folder_under(Some(h.as_str())),
        None => report_folder_under(None),
    };
    assert(dir@ == report_folder_text(owned_text_of(home)));
    dir
}

/// The file that holds the log of a month, under the user's home directory.
pub fn get_report_path(year: i32, month: u32) -> (path: String)
    ensures
        exists|home: Option<Seq<char>>| path@ == report_path_text(home, year, month),
{
    let home = home_dir_text();
    let path = match &home {
        Some(h) => report_path_under(Some(h.as_str()), year, month),
        None => report_path_under(None, year, month),
    };
    assert(path@ == report_path_text(owned_text_of(home), year, month));
    path
}

/// Whatever the home directory, the path of a month's log ends with the name
/// of that month's file.
pub proof fn report_path_ends_with_file_name(home: Option<Seq<char>>, year: i32, month: u32)
    ensures
        ({
            let path = report_path_text(home, year, month);
            let name = file_name_text(year, month);
            path.len() >= name.len() && path.skip(path.len() - name.len()) == name
        }),
{
    let name = file_name_text(year, month);
    let path = report_path_text(home, year, month);
    assert(path.skip(path.len() - name.len()) =~= name);
}

} // verus!
