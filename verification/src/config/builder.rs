//! From the command line and the configuration file to a [`Config`].

use super::Config;
use crate::error::ConfigError;
use crate::remind::meta::{contains_meta_matcher, has_placeholder};
use crate::text::{after_last, chars_of, ends_with, has_suffix, text_after_last};
use crate::text_map::TextMap;
use vstd::prelude::*;
use vstd::string::StringExecFns;

verus! {

/// The configuration file that is read when none is named.
pub const DEFAULT_CONFIG_FILE_PATH: &'static str = "remind.yml";

/// The configuration file that is read when the default one is not there.
pub const ALTERNATE_CONFIG_FILE_PATH: &'static str = "remind.yaml";

pub const YAML_EXTENSION: &'static str = ".yaml";

pub const YML_EXTENSION: &'static str = ".yml";

/// The ignore file that is honoured when none is named.
pub const DEFAULT_IGNORE_FILE_PATH: &'static str = ".remindignore";

/// The comment pattern where none is configured.
pub const DEFAULT_COMMENT_REGEX: &'static str = r"remind:\W?";

/// The date format where none is configured.
pub const DEFAULT_DATETIME_FORMAT: &'static str = "%Y/%m/%d";

/// The directory that is scanned where none is configured.
pub const DEFAULT_SEARCH_DIRECTORY: &'static str = ".";

/// A format that a reminder's message must show.
#[derive(Debug)]
pub struct ValidateItem {
    pub format: String,
}

impl Clone for ValidateItem {
    fn clone(&self) -> (copy: Self)
        ensures
            copy == *self,
    {
        ValidateItem { format: self.format.clone() }
    }
}

/// Where the date of a reminder is configured.
#[derive(Debug)]
pub struct Trigger {
    pub datetime: String,
}

/// The settings as the configuration sources give them.
#[derive(Debug)]
pub struct FileConfig {
    pub comment_regex: String,
    /// Deprecated: the date format, where `trigger.datetime` is empty.
    pub datetime_format: String,
    pub trigger: Trigger,
    pub search_directory: String,
    pub remind_if_no_date: bool,
    pub validates: TextMap<ValidateItem>,
}

/// What the configuration sources say, field by field; `None` where no
/// source says anything.
#[derive(Debug)]
pub struct GivenConfig {
    pub comment_regex: Option<String>,
    pub datetime_format: Option<String>,
    pub trigger_datetime: Option<String>,
    pub search_directory: Option<String>,
    pub remind_if_no_date: Option<bool>,
    pub validates: Option<TextMap<ValidateItem>>,
}

/// The text that was given, or `fallback`.
pub open spec fn text_or(given: Option<String>, fallback: Seq<char>) -> Seq<char> {
    match given {
        Some(text) => text@,
        None => fallback,
    }
}

fn given_or(given: Option<String>, fallback: &str) -> (text: String)
    ensures
        text@ == text_or(given, fallback@),
{
    match given {
        Some(text) => text,
        None => String::from_str(fallback),
    }
}

impl FileConfig {
    /// What the sources say, laid over the defaults: a field that no source
    /// gives has its default. The deprecated `datetime_format` has its
    /// default only where `trigger.datetime` is not given either, so that
    /// naming the date format in one place never counts as naming it twice.
    pub fn over_defaults(given: GivenConfig) -> (config: Self)
        requires
            given.validates matches Some(validates) ==> validates.wf(),
        ensures
            config.comment_regex@ == text_or(given.comment_regex, DEFAULT_COMMENT_REGEX@),
            config.datetime_format@ == match given.datetime_format {
                Some(format) => format@,
                None => if given.trigger_datetime is Some {
                    Seq::<char>::empty()
                } else {
                    DEFAULT_DATETIME_FORMAT@
                },
            },
            config.trigger.datetime@ == text_or(given.trigger_datetime, Seq::<char>::empty()),
            config.search_directory@ == text_or(given.search_directory, DEFAULT_SEARCH_DIRECTORY@),
            config.remind_if_no_date == match given.remind_if_no_date {
                Some(keep) => keep,
                None => false,
            },
            config.validates.wf(),
            match given.validates {
                Some(validates) => config.validates == validates,
                None => config.validates@ == Map::<Seq<char>, ValidateItem>::empty(),
            },
    {
        let named_once = given.trigger_datetime.is_some();
        let datetime_format = match given.datetime_format {
            Some(format) => format,
            None => if named_once {
                String::new()
            } else {
                String::from_str(DEFAULT_DATETIME_FORMAT)
            },
        };
        let trigger = match given.trigger_datetime {
            Some(format) => Trigger { datetime: format },
            None => Trigger { datetime: String::new() },
        };
        FileConfig {
            comment_regex: given_or(given.comment_regex, DEFAULT_COMMENT_REGEX),
            datetime_format,
            trigger,
            search_directory: given_or(given.search_directory, DEFAULT_SEARCH_DIRECTORY),
            remind_if_no_date: match given.remind_if_no_date {
                Some(keep) => keep,
                None => false,
            },
            validates: match given.validates {
                Some(validates) => validates,
                None => TextMap::new(),
            },
        }
    }
}

impl Default for FileConfig {
    fn default() -> (config: Self)
        ensures
            config.comment_regex@ == DEFAULT_COMMENT_REGEX@,
            config.datetime_format@ == DEFAULT_DATETIME_FORMAT@,
            config.trigger.datetime@ == Seq::<char>::empty(),
            config.search_directory@ == DEFAULT_SEARCH_DIRECTORY@,
            !config.remind_if_no_date,
            config.validates.wf(),
            config.validates@ == Map::<Seq<char>, ValidateItem>::empty(),
    {
        FileConfig {
            comment_regex: String::from_str(DEFAULT_COMMENT_REGEX),
            datetime_format: String::from_str(DEFAULT_DATETIME_FORMAT),
            trigger: Trigger { datetime: String::new() },
            search_directory: String::from_str(DEFAULT_SEARCH_DIRECTORY),
            remind_if_no_date: false,
            validates: TextMap::new(),
        }
    }
}

/// What the command line may say before the configuration file is read.
pub struct ConfigBuilder {
    config_file_path: Option<String>,
    ignore_file_path: Option<String>,
    sort_by_deadline: Option<bool>,
    remind_if_no_date: Option<bool>,
}

/// Whether `path` names a YAML file.
pub open spec fn has_config_extension(path: Seq<char>) -> bool {
    ends_with(path, YAML_EXTENSION@) || ends_with(path, YML_EXTENSION@)
}

/// Whether the `i`-th candidate was found on disk.
pub open spec fn is_present(present: Seq<bool>, i: int) -> bool {
    0 <= i < present.len() && present[i]
}

/// Why `file_config` cannot become a configuration, if anything.
pub open spec fn build_refusal(file_config: FileConfig) -> Option<ConfigError> {
    if file_config.validates.entries().len() > 0 && has_placeholder(file_config.comment_regex@) {
        Some(ConfigError::ValidatesWithPlaceholders)
    } else if file_config.trigger.datetime@.len() == 0 && file_config.datetime_format@.len() == 0 {
        Some(ConfigError::MissingDatetimeFormat)
    } else if file_config.trigger.datetime@.len() > 0 && file_config.datetime_format@.len() > 0 {
        Some(ConfigError::ConflictingDatetimeFormats)
    } else {
        None
    }
}

impl Default for ConfigBuilder {
    fn default() -> (builder: Self)
        ensures
            builder.config_override() is None,
            builder.ignore_override() is None,
            builder.sort_override() is None,
            builder.no_date_override() is None,
    {
        Self::new()
    }
}

impl ConfigBuilder {
    pub closed spec fn config_override(&self) -> Option<String> {
        self.config_file_path
    }

    pub closed spec fn ignore_override(&self) -> Option<String> {
        self.ignore_file_path
    }

    pub closed spec fn sort_override(&self) -> Option<bool> {
        self.sort_by_deadline
    }

    pub closed spec fn no_date_override(&self) -> Option<bool> {
        self.remind_if_no_date
    }

    /// A builder that overrides nothing.
    pub fn new() -> (builder: Self)
        ensures
            builder.config_override() is None,
            builder.ignore_override() is None,
            builder.sort_override() is None,
            builder.no_date_override() is None,
    {
        ConfigBuilder {
            config_file_path: None,
            ignore_file_path: None,
            sort_by_deadline: None,
            remind_if_no_date: None,
        }
    }

    /// Names the configuration file, or goes back to the default ones.
    pub fn config_file_path(self, config_file_path: Option<String>) -> (builder: Self)
        ensures
            builder.config_override() == config_file_path,
            builder.ignore_override() == self.ignore_override(),
            builder.sort_override() == self.sort_override(),
            builder.no_date_override() == self.no_date_override(),
    {
        ConfigBuilder {
            config_file_path,
            ignore_file_path: self.ignore_file_path,
            sort_by_deadline: self.sort_by_deadline,
            remind_if_no_date: self.remind_if_no_date,
        }
    }

    /// Names the ignore file, or goes back to the default one.
    pub fn ignore_file_path(self, ignore_file_path: Option<String>) -> (builder: Self)
        ensures
            builder.config_override() == self.config_override(),
            builder.ignore_override() == ignore_file_path,
            builder.sort_override() == self.sort_override(),
            builder.no_date_override() == self.no_date_override(),
    {
        ConfigBuilder {
            config_file_path: self.config_file_path,
            ignore_file_path,
            sort_by_deadline: self.sort_by_deadline,
            remind_if_no_date: self.remind_if_no_date,
        }
    }

    /// Asks for the reminders in the order of their dates, or not.
    pub fn sort_by_deadline(self, sort_by_deadline: Option<bool>) -> (builder: Self)
        ensures
            builder.config_override() == self.config_override(),
            builder.ignore_override() == self.ignore_override(),
            builder.sort_override() == sort_by_deadline,
            builder.no_date_override() == self.no_date_override(),
    {
        ConfigBuilder {
            config_file_path: self.config_file_path,
            ignore_file_path: self.ignore_file_path,
            sort_by_deadline,
            remind_if_no_date: self.remind_if_no_date,
        }
    }

    /// Overrides what the configuration file says of reminders without a
    /// date, or leaves it to the file.
    pub fn remind_if_no_date(self, remind_if_no_date: Option<bool>) -> (builder: Self)
        ensures
            builder.config_override() == self.config_override(),
            builder.ignore_override() == self.ignore_override(),
            builder.sort_override() == self.sort_override(),
            builder.no_date_override() == remind_if_no_date,
    {
        ConfigBuilder {
            config_file_path: self.config_file_path,
            ignore_file_path: self.ignore_file_path,
            sort_by_deadline: self.sort_by_deadline,
            remind_if_no_date,
        }
    }

    /// The files whose presence decides which configuration file is read:
    /// the one that was named, or else the two default ones.
    pub fn config_file_candidates(&self) -> (paths: Vec<String>)
        ensures
            match self.config_override() {
                Some(path) => paths@.len() == 1 && paths@[0]@ == path@,
                None => paths@.len() == 2 && paths@[0]@ == DEFAULT_CONFIG_FILE_PATH@ && paths@[1]@
                    == ALTERNATE_CONFIG_FILE_PATH@,
            },
    {
        let mut paths: Vec<String> = Vec::new();
        match &self.config_file_path {
            Some(path) => {
                paths.push(path.clone());
            },
            None => {
                paths.push(String::from_str(DEFAULT_CONFIG_FILE_PATH));
                paths.push(String::from_str(ALTERNATE_CONFIG_FILE_PATH));
            },
        }
        paths
    }

    /// The configuration file to read, given which of the candidates exist
    /// (`present[i]` for the `i`-th of `config_file_candidates`; a missing
    /// entry counts as absent).
    ///
    /// A file that was named must be a YAML file and must exist. Of the
    /// default files the first that exists is read, and the first one where
    /// neither does.
    pub fn choose_config_file(&self, present: &Vec<bool>) -> (res: Result<String, ConfigError>)
        ensures
            match self.config_override() {
                Some(path) => {
                    if !has_config_extension(path@) {
                        res matches Err(ConfigError::UnsupportedFormat { extension })
                            && extension@ == after_last(path@, '.')
                    } else if !is_present(present@, 0) {
                        res matches Err(ConfigError::MissingFile { path: missing }) && missing@
                            == path@
                    } else {
                        res matches Ok(chosen) && chosen@ == path@
                    }
                },
                None => {
                    res matches Ok(chosen) && chosen@ == if !is_present(present@, 0) && is_present(
                        present@,
                        1,
                    ) {
                        ALTERNATE_CONFIG_FILE_PATH@
                    } else {
                        DEFAULT_CONFIG_FILE_PATH@
                    }
                },
            },
    {
        let first = present.len() > 0 && present[0];
        let second = present.len() > 1 && present[1];
        match &self.config_file_path {
            Some(path) => {
                let chars = chars_of(path.as_str());
                if !(has_suffix(&chars, YAML_EXTENSION) || has_suffix(&chars, YML_EXTENSION)) {
                    Err(ConfigError::UnsupportedFormat { extension: text_after_last(&chars, '.') })
                } else if !first {
                    Err(ConfigError::MissingFile { path: path.clone() })
                } else {
                    Ok(path.clone())
                }
            },
            None => {
                if !first && second {
                    Ok(String::from_str(ALTERNATE_CONFIG_FILE_PATH))
                } else {
                    Ok(String::from_str(DEFAULT_CONFIG_FILE_PATH))
                }
            },
        }
    }

    /// Joins the command line with what the configuration sources gave.
    ///
    /// Refused are placeholders in the comment pattern together with
    /// `validates`, and a date format that is given twice or not at all.
    /// Else the date format is `trigger.datetime`, or the deprecated
    /// `datetime_format` where that is the one given; the command line
    /// overrides the file on reminders without a date; and the ignore file
    /// and the order have their defaults.
    pub fn build(self, file_config: FileConfig) -> (res: Result<Config, ConfigError>)
        requires
            file_config.validates.wf(),
        ensures
            match res {
                Ok(config) => {
                    &&& build_refusal(file_config) is None
                    &&& config.wf()
                    &&& config@.comment_regex == file_config.comment_regex@
                    &&& config@.datetime_format == if file_config.trigger.datetime@.len() > 0 {
                        file_config.trigger.datetime@
                    } else {
                        file_config.datetime_format@
                    }
                    &&& config@.legacy_datetime_format == (file_config.trigger.datetime@.len()
                        == 0)
                    &&& config@.search_directory == file_config.search_directory@
                    &&& config@.ignore_file_path == match self.ignore_override() {
                        Some(path) => path@,
                        None => DEFAULT_IGNORE_FILE_PATH@,
                    }
                    &&& config@.sort_by_deadline == match self.sort_override() {
                        Some(sort) => sort,
                        None => false,
                    }
                    &&& config@.remind_if_no_date == match self.no_date_override() {
                        Some(keep) => keep,
                        None => file_config.remind_if_no_date,
                    }
                    &&& config@.validates == file_config.validates
                },
                Err(error) => build_refusal(file_config) == Some(error),
            },
    {
        let ignore_file_path = match self.ignore_file_path {
            Some(path) => path,
            None => String::from_str(DEFAULT_IGNORE_FILE_PATH),
        };
        let remind_if_no_date = match self.remind_if_no_date {
            Some(keep) => keep,
            None => file_config.remind_if_no_date,
        };
        let sort_by_deadline = match self.sort_by_deadline {
            Some(sort) => sort,
            None => false,
        };
        if !file_config.validates.is_empty() && contains_meta_matcher(
            file_config.comment_regex.as_str(),
        ) {
            return Err(ConfigError::ValidatesWithPlaceholders);
        }
        let preferred = !file_config.trigger.datetime.as_str().is_empty();
        let legacy = !file_config.datetime_format.as_str().is_empty();
        if !preferred && !legacy {
            return Err(ConfigError::MissingDatetimeFormat);
        }
        if preferred && legacy {
            return Err(ConfigError::ConflictingDatetimeFormats);
        }
        let datetime_format = if preferred {
            file_config.trigger.datetime
        } else {
            file_config.datetime_format
        };
        Ok(
            Config {
                comment_regex: file_config.comment_regex,
                datetime_format,
                search_directory: file_config.search_directory,
                ignore_file_path,
                sort_by_deadline,
                remind_if_no_date,
                legacy_datetime_format: !preferred,
                validates: file_config.validates,
            },
        )
    }
}

} // verus!
