//! A personal time tracker: start and stop events are recorded as lines of a
//! monthly log, and a browser pages through the months of that log.
//!
//! The crate holds the rules of the tool: how an event's time is settled, how
//! a line is laid out, where a month's log lives, how a log's text falls into
//! lines, and how the browser moves. Reading and writing files, and drawing on
//! a terminal, are left to the program around it.

pub mod actions;
pub mod calendar;
pub mod codec;
pub mod error;
pub mod eventlog;
pub mod paths;
pub mod text;
pub mod ui;
