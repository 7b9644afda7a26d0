//! Where the configuration file and the ignore file are looked for.

use vstd::prelude::*;

verus! {

pub const DEFAULT_CONFIG_FILE_PATH: &'static str = "remind.yml";

pub const DEFAULT_IGNORE_FILE_PATH: &'static str = ".remindignore";

/// The two file paths a run may override; an absent path stands for its default.
pub struct ReminderOptions<'a> {
    config_file_path: Option<&'a str>,
    ignore_file_path: Option<&'a str>,
}

/// Collects the overrides before a [`ReminderOptions`] is made.
pub struct ReminderOptionsBuilder<'a> {
    config_file_path: Option<&'a str>,
    ignore_file_path: Option<&'a str>,
}

/// The path that stands for `chosen`: the chosen one, or `fallback` when none was chosen.
pub open spec fn path_or(chosen: Option<&str>, fallback: &str) -> Seq<char> {
    match chosen {
        Some(path) => path@,
        None => fallback@,
    }
}

impl<'a> ReminderOptions<'a> {
    pub closed spec fn config_override(&self) -> Option<&'a str> {
        self.config_file_path
    }

    pub closed spec fn ignore_override(&self) -> Option<&'a str> {
        self.ignore_file_path
    }

    /// A builder with no override set.
    pub fn builder() -> (b: ReminderOptionsBuilder<'a>)
        ensures
            b.config_override() is None,
            b.ignore_override() is None,
    {
        ReminderOptionsBuilder { config_file_path: None, ignore_file_path: None }
    }

    /// The configuration file to read.
    pub fn config_file(&self) -> (path: &str)
        ensures
            path@ == path_or(self.config_override(), DEFAULT_CONFIG_FILE_PATH),
    {
        match self.config_file_path {
            Some(path) => path,
            None => DEFAULT_CONFIG_FILE_PATH,
        }
    }

    /// The ignore file to honour.
    pub fn ignore_file(&self) -> (path: &str)
        ensures
            path@ == path_or(self.ignore_override(), DEFAULT_IGNORE_FILE_PATH),
    {
        match self.ignore_file_path {
            Some(path) => path,
            None => DEFAULT_IGNORE_FILE_PATH,
        }
    }
}

impl<'a> ReminderOptionsBuilder<'a> {
    pub closed spec fn config_override(&self) -> Option<&'a str> {
        self.config_file_path
    }

    pub closed spec fn ignore_override(&self) -> Option<&'a str> {
        self.ignore_file_path
    }

    /// Sets, or clears, the configuration file override.
    pub fn config_file_path(self, config_file_path: Option<&'a str>) -> (b: Self)
        ensures
            b.config_override() == config_file_path,
            b.ignore_override() == self.ignore_override(),
    {
        ReminderOptionsBuilder { config_file_path, ignore_file_path: self.ignore_file_path }
    }

    /// Sets, or clears, the ignore file override.
    pub fn ignore_file_path(self, ignore_file_path: Option<&'a str>) -> (b: Self)
        ensures
            b.config_override() == self.config_override(),
            b.ignore_override() == ignore_file_path,
    {
        ReminderOptionsBuilder { config_file_path: self.config_file_path, ignore_file_path }
    }

    /// The options with the overrides collected so far.
    pub fn build(self) -> (options: ReminderOptions<'a>)
        ensures
            options.config_override() == self.config_override(),
            options.ignore_override() == self.ignore_override(),
    {
        ReminderOptions {
            config_file_path: self.config_file_path,
            ignore_file_path: self.ignore_file_path,
        }
    }
}

} // verus!
