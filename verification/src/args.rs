//! The command line, parsed: what each subcommand was given, and what it
//! makes of it before the configuration file is read.

use crate::config::builder::ConfigBuilder;
use vstd::prelude::*;

verus! {

/// The command line.
#[derive(PartialEq, Debug)]
pub struct Args {
    pub command: Subcommand,
}

/// What the program is asked to do.
#[derive(PartialEq, Debug)]
pub enum Subcommand {
    Run(RunCommand),
    Init(InitCommand),
    List(ListCommand),
    Validate(ValidateCommand),
}

/// `run`: report the reminders that are due.
#[derive(PartialEq, Debug)]
pub struct RunCommand {
    pub config_file_path: Option<String>,
    pub ignore_file_path: Option<String>,
    pub sort_by_deadline: Option<bool>,
}

/// `init`: write a first configuration.
#[derive(PartialEq, Debug)]
pub struct InitCommand {}

/// `list`: report all reminders, the due ones first.
#[derive(PartialEq, Debug)]
pub struct ListCommand {
    pub config_file_path: Option<String>,
    pub ignore_file_path: Option<String>,
    pub json: bool,
}

/// `validate`: hold every reminder to the required formats.
#[derive(PartialEq, Debug)]
pub struct ValidateCommand {
    pub config_file_path: Option<String>,
    pub ignore_file_path: Option<String>,
    pub sort_by_deadline: Option<bool>,
}

impl RunCommand {
    /// What `run` overrides: the two paths and the order.
    pub fn config_builder(self) -> (builder: ConfigBuilder)
        ensures
            builder.config_override() == self.config_file_path,
            builder.ignore_override() == self.ignore_file_path,
            builder.sort_override() == self.sort_by_deadline,
            builder.no_date_override() is None,
    {
        ConfigBuilder::new().config_file_path(self.config_file_path).ignore_file_path(
            self.ignore_file_path,
        ).sort_by_deadline(self.sort_by_deadline)
    }
}

impl ListCommand {
    /// What `list` overrides: the two paths.
    pub fn config_builder(self) -> (builder: ConfigBuilder)
        ensures
            builder.config_override() == self.config_file_path,
            builder.ignore_override() == self.ignore_file_path,
            builder.sort_override() is None,
            builder.no_date_override() is None,
    {
        ConfigBuilder::new().config_file_path(self.config_file_path).ignore_file_path(
            self.ignore_file_path,
        )
    }
}

impl ValidateCommand {
    /// What `validate` overrides: the two paths and the order; and undated
    /// reminders are kept whatever the configuration file says, since
    /// validation is owed to every reminder.
    pub fn config_builder(self) -> (builder: ConfigBuilder)
        ensures
            builder.config_override() == self.config_file_path,
            builder.ignore_override() == self.ignore_file_path,
            builder.sort_override() == self.sort_by_deadline,
            builder.no_date_override() == Some(true),
    {
        ConfigBuilder::new().config_file_path(self.config_file_path).ignore_file_path(
            self.ignore_file_path,
        ).sort_by_deadline(self.sort_by_deadline).remind_if_no_date(Some(true))
    }
}

} // verus!
