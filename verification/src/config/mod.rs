//! The settings of one run.

use crate::text_map::TextMap;
use builder::ValidateItem;
use vstd::prelude::*;

pub mod builder;

verus! {

/// The settings of one run, checked as a whole. Made by
/// [`builder::ConfigBuilder::build`] only.
#[derive(Debug)]
pub struct Config {
    comment_regex: String,
    datetime_format: String,
    search_directory: String,
    ignore_file_path: String,
    sort_by_deadline: bool,
    remind_if_no_date: bool,
    legacy_datetime_format: bool,
    validates: TextMap<ValidateItem>,
}

/// What a [`Config`] says, as plain values.
pub struct ConfigView {
    pub comment_regex: Seq<char>,
    pub datetime_format: Seq<char>,
    pub search_directory: Seq<char>,
    pub ignore_file_path: Seq<char>,
    pub sort_by_deadline: bool,
    pub remind_if_no_date: bool,
    pub legacy_datetime_format: bool,
    pub validates: TextMap<ValidateItem>,
}

impl View for Config {
    type V = ConfigView;

    closed spec fn view(&self) -> ConfigView {
        ConfigView {
            comment_regex: self.comment_regex@,
            datetime_format: self.datetime_format@,
            search_directory: self.search_directory@,
            ignore_file_path: self.ignore_file_path@,
            sort_by_deadline: self.sort_by_deadline,
            remind_if_no_date: self.remind_if_no_date,
            legacy_datetime_format: self.legacy_datetime_format,
            validates: self.validates,
        }
    }
}

impl Config {
    /// The invariant of the type: the date format is not empty, and no two
    /// entries of `validates` share a name.
    pub open spec fn wf(&self) -> bool {
        &&& self@.datetime_format.len() > 0
        &&& self@.validates.wf()
    }

    /// The pattern that marks a line as a reminder.
    pub fn comment_regex(&self) -> (s: &str)
        ensures
            s@ == self@.comment_regex,
    {
        self.comment_regex.as_str()
    }

    /// The format of a reminder's date.
    pub fn datetime_format(&self) -> (s: &str)
        ensures
            s@ == self@.datetime_format,
    {
        self.datetime_format.as_str()
    }

    /// The directory to scan.
    pub fn search_directory(&self) -> (s: &str)
        ensures
            s@ == self@.search_directory,
    {
        self.search_directory.as_str()
    }

    /// The name of the ignore files to honour.
    pub fn ignore_file_path(&self) -> (s: &str)
        ensures
            s@ == self@.ignore_file_path,
    {
        self.ignore_file_path.as_str()
    }

    /// Whether the reminders come out ordered by their dates.
    pub fn sort_by_deadline(&self) -> (b: bool)
        ensures
            b == self@.sort_by_deadline,
    {
        self.sort_by_deadline
    }

    /// Whether a reminder without a date is kept.
    pub fn remind_if_no_date(&self) -> (b: bool)
        ensures
            b == self@.remind_if_no_date,
    {
        self.remind_if_no_date
    }

    /// Whether the date format came from the deprecated `datetime_format`
    /// setting, which calls for a notice to the user.
    pub fn legacy_datetime_format(&self) -> (b: bool)
        ensures
            b == self@.legacy_datetime_format,
    {
        self.legacy_datetime_format
    }

    /// The formats that every reminder's message is held to, by name.
    pub fn validates(&self) -> (map: &TextMap<ValidateItem>)
        ensures
            *map == self@.validates,
    {
        &self.validates
    }
}

} // verus!
