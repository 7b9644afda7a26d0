//! What can go wrong, by the stage at which it does.

use vstd::prelude::*;
use vstd::string::StringExecFns;

verus! {

/// A date that was found in a line but does not conform to the date format.
#[derive(Debug)]
pub struct DateParseError {
    pub cause: chrono::ParseError,
}

/// Why a configuration is refused.
#[derive(Debug)]
pub enum ConfigError {
    /// The configuration file named on the command line is not a YAML file.
    UnsupportedFormat { extension: String },
    /// The configuration file named on the command line does not exist.
    MissingFile { path: String },
    /// Placeholders in the comment pattern, together with `validates`.
    ValidatesWithPlaceholders,
    /// Neither `trigger.datetime` nor `datetime_format` is given.
    MissingDatetimeFormat,
    /// Both `trigger.datetime` and `datetime_format` are given.
    ConflictingDatetimeFormats,
    /// The format of the entry `name` of `validates` is no valid pattern.
    InvalidValidateFormat { name: String, cause: regex::Error },
}

/// Why the reminders could not be collected.
#[derive(Debug)]
pub enum ScanError {
    /// The comment pattern is no valid pattern for the line search.
    CommentPattern(grep_regex::Error),
    /// The comment pattern, its placeholders named, is no valid pattern.
    PlaceholderPattern(regex::Error),
    /// The date format gives no valid pattern.
    DatePattern(regex::Error),
}

/// Any failure of a run, by its stage.
#[derive(Debug)]
pub enum ReminderLintError {
    FailedLoadConfig(ConfigError),
    FailedGetReminders(ScanError),
}

/// The text of a configuration error.
pub open spec fn config_error_text(error: ConfigError) -> Seq<char> {
    match error {
        ConfigError::UnsupportedFormat { extension } => {
            "Unsupported configuration file format '."@ + extension@
                + "'. Only .yaml and .yml files are supported."@
        },
        ConfigError::MissingFile { path } => "Config file '"@ + path@ + "' does not exist"@,
        ConfigError::ValidatesWithPlaceholders => {
            "Validation and meta matcher features cannot be used together"@
        },
        ConfigError::MissingDatetimeFormat => {
            "No datetime format is configured: set trigger.datetime"@
        },
        ConfigError::ConflictingDatetimeFormats => {
            "Both trigger.datetime and datetime_format are set: keep one"@
        },
        ConfigError::InvalidValidateFormat { name, cause } => {
            "Invalid format for validation '"@ + name@ + "'"@
        },
    }
}

impl ConfigError {
    /// The error as a line for the user.
    pub fn message(&self) -> (text: String)
        ensures
            text@ == config_error_text(*self),
    {
        match self {
            ConfigError::UnsupportedFormat { extension } => {
                let mut text = String::from_str("Unsupported configuration file format '.");
                text.append(extension.as_str());
                text.append("'. Only .yaml and .yml files are supported.");
                text
            },
            ConfigError::MissingFile { path } => {
                let mut text = String::from_str("Config file '");
                text.append(path.as_str());
                text.append("' does not exist");
                text
            },
            ConfigError::ValidatesWithPlaceholders => {
                String::from_str("Validation and meta matcher features cannot be used together")
            },
            ConfigError::MissingDatetimeFormat => {
                String::from_str("No datetime format is configured: set trigger.datetime")
            },
            ConfigError::ConflictingDatetimeFormats => {
                String::from_str("Both trigger.datetime and datetime_format are set: keep one")
            },
            ConfigError::InvalidValidateFormat { name, cause: _ } => {
                let mut text = String::from_str("Invalid format for validation '");
                text.append(name.as_str());
                text.append("'");
                text
            },
        }
    }
}

impl From<ConfigError> for ReminderLintError {
    fn from(err: ConfigError) -> (res: Self) {
        ReminderLintError::FailedLoadConfig(err)
    }
}

impl vstd::std_specs::convert::FromSpecImpl<ConfigError> for ReminderLintError {
    open spec fn obeys_from_spec() -> bool {
        true
    }

    open spec fn from_spec(err: ConfigError) -> Self {
        ReminderLintError::FailedLoadConfig(err)
    }
}

impl From<ScanError> for ReminderLintError {
    fn from(err: ScanError) -> (res: Self) {
        ReminderLintError::FailedGetReminders(err)
    }
}

impl vstd::std_specs::convert::FromSpecImpl<ScanError> for ReminderLintError {
    open spec fn obeys_from_spec() -> bool {
        true
    }

    open spec fn from_spec(err: ScanError) -> Self {
        ReminderLintError::FailedGetReminders(err)
    }
}

} // verus!
