use reminder_lint::config::builder::ValidateItem;
use reminder_lint::remind::aggregate::classify;
use reminder_lint::remind::{Position, Remind};
use reminder_lint::subcommand::{
    created_notice, default_hint, ignore_file_content, init_config, init_plan, list_report,
    push_decimal, render, render_invalid, run_report, validate_report, InitError, InitPlan,
    Status,
};
use reminder_lint::text_map::TextMap;
use reminder_lint::validate::InvalidRemind;

fn remind(datetime: i64, file: &str, line: u64, message: &str) -> Remind {
    Remind {
        datetime,
        message: message.to_string(),
        position: Position { file: file.to_string(), line },
        meta: TextMap::new(),
    }
}

fn invalid(message: &str, lacking: &[(&str, &str)]) -> InvalidRemind {
    let mut unmatched = TextMap::new();
    for (name, format) in lacking {
        unmatched.insert(name.to_string(), ValidateItem { format: format.to_string() });
    }
    InvalidRemind { remind: remind(0, "a.rs", 3, message), unmatched }
}

#[test]
fn numbers_are_written_in_decimal() {
    for n in [0u64, 7, 9, 10, 11, 99, 100, 101, 12_345, 1_000_000, u64::MAX] {
        let mut text = String::from("#");
        push_decimal(&mut text, n);
        assert_eq!(text, format!("#{}", n));
    }
}

#[test]
fn reminder_is_rendered_as_file_line_message() {
    assert_eq!(
        render(&remind(0, "src/main.rs", 42, "// remind: 2020/01/01 buy milk")),
        "src/main.rs:42 // remind: 2020/01/01 buy milk"
    );
    assert_eq!(render(&remind(0, "", 0, "")), ":0 ");
}

#[test]
fn run_reports_what_is_due_and_fails() {
    let reminds = vec![
        remind(1_577_836_800, "a.rs", 2, "remind: 2020/01/01 buy milk"),
        remind(32_472_144_000, "b.rs", 1, "remind: 2999/01/01 renew passport"),
        remind(0, "c.rs", 9, "remind: call mom"),
    ];
    let report = run_report(reminds, 1_700_000_000);
    assert!(report.headline.is_none());
    assert_eq!(
        report.blocks,
        vec!["a.rs:2 remind: 2020/01/01 buy milk".to_string(), "c.rs:9 remind: call mom".to_string()]
    );
    assert!(report.failed);
}

#[test]
fn run_with_nothing_due_succeeds() {
    let report = run_report(vec![remind(32_472_144_000, "b.rs", 1, "later")], 1_700_000_000);
    assert!(report.blocks.is_empty());
    assert!(!report.failed);
    assert!(!run_report(Vec::new(), 0).failed);
}

#[test]
fn list_reports_due_before_not_yet_due() {
    let list = classify(
        vec![
            remind(32_472_144_000, "b.rs", 1, "later"),
            remind(1_577_836_800, "a.rs", 2, "due"),
            remind(32_472_144_001, "c.rs", 3, "much later"),
        ],
        1_700_000_000,
    );
    let report = list_report(&list);
    assert!(report.headline.is_none());
    assert!(!report.failed);
    assert_eq!(
        report.blocks,
        vec!["a.rs:2 due".to_string(), "b.rs:1 later".to_string(), "c.rs:3 much later".to_string()]
    );
}

#[test]
fn invalid_reminder_is_rendered_with_what_it_lacks() {
    let found = invalid("remind: call mom\n", &[("date", "%Y/%m/%d"), ("owner", r"@\w+")]);
    assert_eq!(
        render_invalid(&found),
        "a.rs:3 remind: call mom\n\
         Missing `date` format: \x1b[31m%Y/%m/%d\x1b[0m \n\
         Missing `owner` format: \x1b[31m@\\w+\x1b[0m \n\n"
    );
    assert_eq!(render_invalid(&invalid("x", &[])), "a.rs:3 x\n");
}

#[test]
fn validation_with_invalid_reminders_fails() {
    let found = vec![
        invalid("remind: one\n", &[("date", "%Y/%m/%d")]),
        invalid("remind: two\n", &[("date", "%Y/%m/%d")]),
    ];
    let report = validate_report(&found);
    let headline = report.headline.unwrap();
    assert_eq!(headline.status, Status::Error);
    assert_eq!(headline.text, "found 2 invalid reminders:");
    assert!(report.failed);
    assert_eq!(
        report.blocks,
        vec![
            "a.rs:3 remind: one\nMissing `date` format: \x1b[31m%Y/%m/%d\x1b[0m \n\n".to_string(),
            "a.rs:3 remind: two\nMissing `date` format: \x1b[31m%Y/%m/%d\x1b[0m \n\n".to_string()
        ]
    );
}

#[test]
fn validation_without_invalid_reminders_succeeds() {
    let report = validate_report(&Vec::new());
    let headline = report.headline.unwrap();
    assert_eq!(headline.status, Status::Success);
    assert_eq!(headline.text, "all reminders are valid");
    assert!(!report.failed);
    assert!(report.blocks.is_empty());
}

#[test]
fn init_asks_for_what_is_missing() {
    assert_eq!(init_plan(false, false), Ok(InitPlan { ask_config: true, ask_ignore: true }));
    assert_eq!(init_plan(true, false), Ok(InitPlan { ask_config: false, ask_ignore: true }));
    assert_eq!(init_plan(false, true), Ok(InitPlan { ask_config: true, ask_ignore: false }));
    assert_eq!(init_plan(true, true), Err(InitError::AlreadyInitialised));
    assert_eq!(
        InitError::AlreadyInitialised.message(),
        "remind.yml and .remindignore already exists"
    );
}

#[test]
fn init_requires_the_chosen_date_format() {
    let config = init_config(
        "todo:".to_string(),
        "%Y/%m/%d %H:%M:%S".to_string(),
        "src".to_string(),
        true,
    );
    assert_eq!(config.comment_regex, "todo:");
    assert_eq!(config.datetime_format, "%Y/%m/%d %H:%M:%S");
    assert_eq!(config.trigger.datetime, "");
    assert_eq!(config.search_directory, "src");
    assert!(config.remind_if_no_date);
    assert_eq!(config.validates.len(), 1);
    assert_eq!(config.validates.key_at(0), "datetime");
    assert_eq!(config.validates.value_at(0).format, "%Y/%m/%d %H:%M:%S");
}

#[test]
fn init_texts_are_as_worded() {
    assert_eq!(ignore_file_content(), "remind.yml\n");
    assert_eq!(default_hint(r"remind:\W?"), r"Default: remind:\W?");
    assert_eq!(created_notice("remind.yml"), "Successfully create ./remind.yml");
}
