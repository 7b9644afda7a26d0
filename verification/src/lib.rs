//! Reminder extraction and classification for source trees.
//!
//! A reminder is a line that matches the configured comment pattern. The
//! library turns the files of a tree into reminders, reads the date of
//! each, drops and orders them as the configuration asks, parts them into
//! due and not yet due, and holds their messages to the required formats.
//! It reads no file and no clock: the caller hands it the files' bytes and
//! the current time.

use vstd::prelude::*;

pub mod args;
pub mod calendar;
pub mod config;
pub mod error;
pub mod options;
pub mod pattern;
pub mod remind;
pub mod search;
pub mod subcommand;
pub mod text;
pub mod text_map;
pub mod validate;

use config::Config;
use error::{ReminderLintError, ScanError};
use pattern::regex_valid;
use remind::meta::{meta_regex_of, named_pattern_of};
use remind::scan::{can_scan, lines_from_one, scan_files, scanned_reminds, scanned_unparsed};
use remind::{date_regex_of, text_views, views, Remind, SourceFile};
use search::matcher_valid;

verus! {

/// What a run found.
#[derive(Debug)]
pub struct Reminders {
    /// The reminders, dropped and ordered as the configuration asks.
    pub reminds: Vec<Remind>,
    /// Each date that was found but could not be read, in the order of
    /// discovery. The reminder of its line has no date, and the caller
    /// owes the user a diagnostic.
    pub unparsed_dates: Vec<String>,
}

/// The reminders of `files` under `conf`.
///
/// Fails, before any file is looked at, where the comment pattern or the
/// date format of `conf` gives no valid pattern.
pub fn reminders(conf: &Config, files: &Vec<SourceFile>) -> (res: Result<
    Reminders,
    ReminderLintError,
>)
    ensures
        match res {
            Ok(found) => {
                &&& can_scan(conf@)
                &&& views(found.reminds@) == scanned_reminds(conf@, files@)
                &&& text_views(found.unparsed_dates@) == scanned_unparsed(conf@, files@)
                &&& lines_from_one(views(found.reminds@))
            },
            Err(ReminderLintError::FailedGetReminders(ScanError::CommentPattern(_))) => {
                !matcher_valid(meta_regex_of(conf@.comment_regex))
            },
            Err(ReminderLintError::FailedGetReminders(ScanError::DatePattern(_))) => {
                &&& matcher_valid(meta_regex_of(conf@.comment_regex))
                &&& !regex_valid(date_regex_of(conf@.datetime_format))
            },
            Err(ReminderLintError::FailedGetReminders(ScanError::PlaceholderPattern(_))) => {
                &&& matcher_valid(meta_regex_of(conf@.comment_regex))
                &&& regex_valid(date_regex_of(conf@.datetime_format))
                &&& !regex_valid(named_pattern_of(conf@.comment_regex))
            },
            Err(ReminderLintError::FailedLoadConfig(_)) => false,
        },
{
    match scan_files(conf, files) {
        Ok(found) => Ok(found),
        Err(cause) => Err(ReminderLintError::from(cause)),
    }
}

} // verus!
