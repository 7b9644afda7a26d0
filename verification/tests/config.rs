use reminder_lint::args::{ListCommand, RunCommand, ValidateCommand};
use reminder_lint::config::builder::{
    ConfigBuilder, FileConfig, GivenConfig, ValidateItem, ALTERNATE_CONFIG_FILE_PATH,
    DEFAULT_CONFIG_FILE_PATH, DEFAULT_IGNORE_FILE_PATH,
};
use reminder_lint::error::{ConfigError, ReminderLintError};
use reminder_lint::text_map::TextMap;

fn with_validates(comment_regex: &str) -> FileConfig {
    let mut file_config = FileConfig::default();
    file_config.comment_regex = comment_regex.to_string();
    file_config
        .validates
        .insert("date".to_string(), ValidateItem { format: "%Y/%m/%d".to_string() });
    file_config
}

#[test]
fn file_config_has_its_defaults() {
    let config = FileConfig::default();
    assert_eq!(config.comment_regex, r"remind:\W?");
    assert_eq!(config.datetime_format, "%Y/%m/%d");
    assert_eq!(config.trigger.datetime, "");
    assert_eq!(config.search_directory, ".");
    assert!(!config.remind_if_no_date);
    assert!(config.validates.is_empty());
}

#[test]
fn build_takes_the_file_and_the_defaults() {
    let config = ConfigBuilder::new().build(FileConfig::default()).unwrap();
    assert_eq!(config.comment_regex(), r"remind:\W?");
    assert_eq!(config.datetime_format(), "%Y/%m/%d");
    assert_eq!(config.search_directory(), ".");
    assert_eq!(config.ignore_file_path(), DEFAULT_IGNORE_FILE_PATH);
    assert_eq!(config.ignore_file_path(), ".remindignore");
    assert!(!config.sort_by_deadline());
    assert!(!config.remind_if_no_date());
    assert!(config.legacy_datetime_format());
    assert!(config.validates().is_empty());
}

#[test]
fn build_lets_the_command_line_override() {
    let mut file_config = FileConfig::default();
    file_config.remind_if_no_date = true;
    file_config.search_directory = "src".to_string();
    let config = ConfigBuilder::default()
        .ignore_file_path(Some(".gitignore".to_string()))
        .sort_by_deadline(Some(true))
        .remind_if_no_date(Some(false))
        .build(file_config)
        .unwrap();
    assert_eq!(config.ignore_file_path(), ".gitignore");
    assert_eq!(config.search_directory(), "src");
    assert!(config.sort_by_deadline());
    assert!(!config.remind_if_no_date());

    let mut file_config = FileConfig::default();
    file_config.remind_if_no_date = true;
    let config = ConfigBuilder::new().build(file_config).unwrap();
    assert!(config.remind_if_no_date());
}

#[test]
fn build_keeps_the_required_formats() {
    let config = ConfigBuilder::new().build(with_validates(r"remind:\W?")).unwrap();
    assert_eq!(config.validates().len(), 1);
    assert_eq!(config.validates().key_at(0), "date");
    assert_eq!(config.validates().value_at(0).format, "%Y/%m/%d");
}

#[test]
fn placeholders_with_required_formats_are_refused() {
    let refused = ConfigBuilder::new().build(with_validates(r"@${assignee} remind:\W?"));
    assert!(matches!(refused, Err(ConfigError::ValidatesWithPlaceholders)));
    assert_eq!(
        refused.unwrap_err().message(),
        "Validation and meta matcher features cannot be used together"
    );
}

#[test]
fn placeholders_alone_and_required_formats_alone_are_accepted() {
    let mut file_config = FileConfig::default();
    file_config.comment_regex = r"@${assignee} remind:\W?".to_string();
    assert!(ConfigBuilder::new().build(file_config).is_ok());
    assert!(ConfigBuilder::new().build(with_validates(r"@(?P<assignee>.*) remind:")).is_ok());
}

#[test]
fn preferred_date_format_is_taken() {
    let mut file_config = FileConfig::default();
    file_config.datetime_format = String::new();
    file_config.trigger.datetime = "%Y-%m-%d".to_string();
    let config = ConfigBuilder::new().build(file_config).unwrap();
    assert_eq!(config.datetime_format(), "%Y-%m-%d");
    assert!(!config.legacy_datetime_format());
}

#[test]
fn missing_date_format_is_refused() {
    let mut file_config = FileConfig::default();
    file_config.datetime_format = String::new();
    let refused = ConfigBuilder::new().build(file_config);
    assert!(matches!(refused, Err(ConfigError::MissingDatetimeFormat)));
}

#[test]
fn two_date_formats_are_refused() {
    let mut file_config = FileConfig::default();
    file_config.trigger.datetime = "%Y-%m-%d".to_string();
    let refused = ConfigBuilder::new().build(file_config);
    assert!(matches!(refused, Err(ConfigError::ConflictingDatetimeFormats)));
}

#[test]
fn candidates_are_the_named_file_or_the_defaults() {
    assert_eq!(
        ConfigBuilder::new().config_file_candidates(),
        vec![DEFAULT_CONFIG_FILE_PATH.to_string(), ALTERNATE_CONFIG_FILE_PATH.to_string()]
    );
    assert_eq!(
        ConfigBuilder::new().config_file_candidates(),
        vec!["remind.yml".to_string(), "remind.yaml".to_string()]
    );
    assert_eq!(
        ConfigBuilder::new().config_file_path(Some("ci/remind.yml".to_string())).config_file_candidates(),
        vec!["ci/remind.yml".to_string()]
    );
}

#[test]
fn default_config_file_is_the_first_that_exists() {
    let builder = ConfigBuilder::new();
    assert_eq!(builder.choose_config_file(&vec![true, true]).unwrap(), "remind.yml");
    assert_eq!(builder.choose_config_file(&vec![true, false]).unwrap(), "remind.yml");
    assert_eq!(builder.choose_config_file(&vec![false, true]).unwrap(), "remind.yaml");
    assert_eq!(builder.choose_config_file(&vec![false, false]).unwrap(), "remind.yml");
    assert_eq!(builder.choose_config_file(&Vec::new()).unwrap(), "remind.yml");
}

#[test]
fn named_config_file_must_be_yaml() {
    let builder = ConfigBuilder::new().config_file_path(Some("conf/remind.toml".to_string()));
    match builder.choose_config_file(&vec![true]) {
        Err(ConfigError::UnsupportedFormat { extension }) => assert_eq!(extension, "toml"),
        other => panic!("unexpected: {:?}", other),
    }
    let error = builder.choose_config_file(&vec![true]).unwrap_err();
    assert_eq!(
        error.message(),
        "Unsupported configuration file format '.toml'. Only .yaml and .yml files are supported."
    );
    let bare = ConfigBuilder::new().config_file_path(Some("remind".to_string()));
    match bare.choose_config_file(&vec![true]) {
        Err(ConfigError::UnsupportedFormat { extension }) => assert_eq!(extension, "remind"),
        other => panic!("unexpected: {:?}", other),
    }
}

#[test]
fn named_config_file_must_exist() {
    let builder = ConfigBuilder::new().config_file_path(Some("ci/remind.yaml".to_string()));
    match builder.choose_config_file(&vec![false]) {
        Err(ConfigError::MissingFile { path }) => assert_eq!(path, "ci/remind.yaml"),
        other => panic!("unexpected: {:?}", other),
    }
    assert_eq!(
        builder.choose_config_file(&Vec::new()).unwrap_err().message(),
        "Config file 'ci/remind.yaml' does not exist"
    );
    assert_eq!(builder.choose_config_file(&vec![true]).unwrap(), "ci/remind.yaml");
    let short = ConfigBuilder::new().config_file_path(Some("x.yml".to_string()));
    assert_eq!(short.choose_config_file(&vec![true]).unwrap(), "x.yml");
}

#[test]
fn remaining_errors_have_a_message() {
    assert!(!ConfigError::MissingDatetimeFormat.message().is_empty());
    assert!(!ConfigError::ConflictingDatetimeFormats.message().is_empty());
    let cause = regex::Regex::new("(").unwrap_err();
    let error = ConfigError::InvalidValidateFormat { name: "date".to_string(), cause };
    assert_eq!(error.message(), "Invalid format for validation 'date'");
}

#[test]
fn configuration_error_becomes_a_run_error() {
    let error = ReminderLintError::from(ConfigError::ValidatesWithPlaceholders);
    assert!(matches!(
        error,
        ReminderLintError::FailedLoadConfig(ConfigError::ValidatesWithPlaceholders)
    ));
}

#[test]
fn run_overrides_paths_and_order() {
    let command = RunCommand {
        config_file_path: Some("a.yml".to_string()),
        ignore_file_path: Some(".ignore".to_string()),
        sort_by_deadline: Some(true),
    };
    let builder = command.config_builder();
    assert_eq!(builder.config_file_candidates(), vec!["a.yml".to_string()]);
    let mut file_config = FileConfig::default();
    file_config.remind_if_no_date = true;
    let config = builder.build(file_config).unwrap();
    assert_eq!(config.ignore_file_path(), ".ignore");
    assert!(config.sort_by_deadline());
    assert!(config.remind_if_no_date());
}

#[test]
fn list_overrides_paths_only() {
    let command = ListCommand { config_file_path: None, ignore_file_path: None, json: true };
    let builder = command.config_builder();
    assert_eq!(builder.config_file_candidates().len(), 2);
    let config = builder.build(FileConfig::default()).unwrap();
    assert_eq!(config.ignore_file_path(), ".remindignore");
    assert!(!config.sort_by_deadline());
    assert!(!config.remind_if_no_date());
}

#[test]
fn validate_keeps_undated_reminders() {
    let command = ValidateCommand {
        config_file_path: None,
        ignore_file_path: None,
        sort_by_deadline: None,
    };
    let config = command.config_builder().build(FileConfig::default()).unwrap();
    assert!(config.remind_if_no_date());
    assert!(!config.sort_by_deadline());
}

#[test]
fn absent_settings_take_their_defaults() {
    let config = FileConfig::over_defaults(GivenConfig {
        comment_regex: None,
        datetime_format: None,
        trigger_datetime: None,
        search_directory: None,
        remind_if_no_date: None,
        validates: None,
    });
    let default = FileConfig::default();
    assert_eq!(config.comment_regex, default.comment_regex);
    assert_eq!(config.datetime_format, "%Y/%m/%d");
    assert_eq!(config.trigger.datetime, "");
    assert_eq!(config.search_directory, ".");
    assert!(!config.remind_if_no_date);
    assert!(config.validates.is_empty());
    assert!(ConfigBuilder::new().build(config).is_ok());
}

#[test]
fn given_settings_override_the_defaults() {
    let mut validates = TextMap::new();
    validates.insert("date".to_string(), ValidateItem { format: "%Y".to_string() });
    let config = FileConfig::over_defaults(GivenConfig {
        comment_regex: Some("todo:".to_string()),
        datetime_format: Some("%d.%m.%Y".to_string()),
        trigger_datetime: None,
        search_directory: Some("src".to_string()),
        remind_if_no_date: Some(true),
        validates: Some(validates),
    });
    assert_eq!(config.comment_regex, "todo:");
    assert_eq!(config.datetime_format, "%d.%m.%Y");
    assert_eq!(config.trigger.datetime, "");
    assert_eq!(config.search_directory, "src");
    assert!(config.remind_if_no_date);
    assert_eq!(config.validates.len(), 1);
}

#[test]
fn preferred_date_format_alone_is_not_a_conflict() {
    let given = || GivenConfig {
        comment_regex: None,
        datetime_format: None,
        trigger_datetime: Some("%Y-%m-%d".to_string()),
        search_directory: None,
        remind_if_no_date: None,
        validates: None,
    };
    let config = FileConfig::over_defaults(given());
    assert_eq!(config.datetime_format, "");
    assert_eq!(config.trigger.datetime, "%Y-%m-%d");
    let built = ConfigBuilder::new().build(config).unwrap();
    assert_eq!(built.datetime_format(), "%Y-%m-%d");
    assert!(!built.legacy_datetime_format());

    let mut both = given();
    both.datetime_format = Some("%Y/%m/%d".to_string());
    assert!(matches!(
        ConfigBuilder::new().build(FileConfig::over_defaults(both)),
        Err(ConfigError::ConflictingDatetimeFormats)
    ));
}
