use chrono::{NaiveDate, NaiveDateTime};
use regex::Regex;
use reminder_lint::config::builder::{ConfigBuilder, FileConfig};
use reminder_lint::config::Config;
use reminder_lint::error::{ReminderLintError, ScanError};
use reminder_lint::remind::meta::compile_placeholder_regex;
use reminder_lint::remind::scan::{scan_files, Scanner};
use reminder_lint::remind::{
    compile_date_regex, datetime_format_to_regex, line_processor, list_reminders,
    parse_datetime, wants_time_of_day, SourceFile,
};
use reminder_lint::reminders;

fn config_with(comment_regex: &str, keep_undated: bool, sort: bool) -> Config {
    let mut file_config = FileConfig::default();
    file_config.comment_regex = comment_regex.to_string();
    ConfigBuilder::new()
        .remind_if_no_date(Some(keep_undated))
        .sort_by_deadline(Some(sort))
        .build(file_config)
        .unwrap()
}

fn file(path: &str, content: &str) -> SourceFile {
    SourceFile { path: path.to_string(), content: content.as_bytes().to_vec() }
}

#[test]
fn date_format_becomes_digit_counts() {
    assert_eq!(datetime_format_to_regex("%Y/%m/%d"), r"\d{4}/\d{2}/\d{2}");
    assert_eq!(
        datetime_format_to_regex("%Y-%m-%d %H:%M:%S"),
        r"\d{4}-\d{2}-\d{2} \d{2}:\d{2}:\d{2}"
    );
}

#[test]
fn date_format_keeps_everything_else() {
    assert_eq!(datetime_format_to_regex(""), "");
    assert_eq!(datetime_format_to_regex("due (soon)"), "due (soon)");
    assert_eq!(datetime_format_to_regex("%y.%b"), "%y.%b");
    assert_eq!(datetime_format_to_regex("%"), "%");
    assert_eq!(datetime_format_to_regex("100%"), "100%");
    assert_eq!(datetime_format_to_regex("%%Y"), r"%\d{4}");
    assert_eq!(datetime_format_to_regex("[%d]"), r"[\d{2}]");
}

#[test]
fn date_format_agrees_with_successive_replacement() {
    for format in ["%Y/%m/%d", "%%Y%m", "%d%d%", "a%Hb%Mc%S", "%Y%", "%%%%", "%m%Y%x%S"] {
        let mut expected = format.to_string();
        for (directive, fragment) in [
            ("%Y", r"\d{4}"),
            ("%m", r"\d{2}"),
            ("%d", r"\d{2}"),
            ("%H", r"\d{2}"),
            ("%M", r"\d{2}"),
            ("%S", r"\d{2}"),
        ] {
            expected = expected.replace(directive, fragment);
        }
        assert_eq!(datetime_format_to_regex(format), expected);
    }
}

#[test]
fn date_pattern_finds_a_formatted_date() {
    let moment = NaiveDate::from_ymd_opt(2024, 3, 15).unwrap().and_hms_opt(8, 30, 5).unwrap();
    for format in [
        "%Y/%m/%d",
        "%Y-%m-%d %H:%M:%S",
        "%d.%m.%Y",
        "%H:%M",
        "%Y%m%d%H%M%S",
        "%S %M %H %d %m %Y",
    ] {
        let text = moment.format(format).to_string();
        let pattern = Regex::new(&datetime_format_to_regex(format)).unwrap();
        assert_eq!(pattern.find(&text).map(|m| m.as_str()), Some(text.as_str()));
        let line = format!("// remind: {} water the plants", text);
        assert_eq!(pattern.find(&line).map(|m| m.as_str()), Some(text.as_str()));
    }
}

#[test]
fn time_directives_are_recognised() {
    assert!(wants_time_of_day("%Y/%m/%d %H"));
    assert!(wants_time_of_day("%M"));
    assert!(wants_time_of_day("at %S"));
    assert!(!wants_time_of_day("%Y/%m/%d"));
    assert!(!wants_time_of_day("H M S"));
    assert!(!wants_time_of_day("%"));
    assert!(!wants_time_of_day(""));
    assert!(wants_time_of_day("%%H"));
}

#[test]
fn empty_date_is_no_date() {
    for format in ["%Y/%m/%d", "%Y/%m/%d %H:%M:%S", "", "anything"] {
        assert_eq!(parse_datetime("", format).unwrap(), 0);
    }
}

#[test]
fn date_is_read_at_midnight_utc() {
    assert_eq!(parse_datetime("2024/03/15", "%Y/%m/%d").unwrap(), 1_710_460_800);
    assert_eq!(parse_datetime("1970/01/01", "%Y/%m/%d").unwrap(), 0);
    assert_eq!(parse_datetime("1969/12/31", "%Y/%m/%d").unwrap(), -86_400);
}

#[test]
fn date_with_time_is_read_in_utc() {
    assert_eq!(
        parse_datetime("2024/03/15 08:30:00", "%Y/%m/%d %H:%M:%S").unwrap(),
        1_710_491_400
    );
    let expected = NaiveDateTime::parse_from_str("2024/03/15 08:30:00", "%Y/%m/%d %H:%M:%S")
        .unwrap()
        .and_utc()
        .timestamp();
    assert_eq!(expected, 1_710_491_400);
}

#[test]
fn date_that_does_not_conform_is_an_error() {
    assert!(parse_datetime("2024-03-15", "%Y/%m/%d").is_err());
    assert!(parse_datetime("2024/13/15", "%Y/%m/%d").is_err());
    assert!(parse_datetime("2024/03/15", "%Y/%m/%d %H:%M:%S").is_err());
    assert!(parse_datetime("soon", "%Y/%m/%d").is_err());
}

#[test]
fn line_becomes_a_reminder() {
    let date = compile_date_regex("%Y/%m/%d").unwrap();
    let names = compile_placeholder_regex(r"@${assignee} remind:\W?").unwrap();
    let (remind, failure) = line_processor(
        7,
        "   // @alice remind: 2024/03/15 ship it\n",
        "src/main.rs",
        "%Y/%m/%d",
        &date,
        &names,
    );
    assert!(failure.is_none());
    assert_eq!(remind.datetime, 1_710_460_800);
    assert_eq!(remind.message, "// @alice remind: 2024/03/15 ship it\n");
    assert_eq!(remind.position.file, "src/main.rs");
    assert_eq!(remind.position.line, 7);
    assert_eq!(
        remind.meta.into_entries(),
        vec![("assignee".to_string(), "alice".to_string())]
    );
}

#[test]
fn line_without_a_date_gives_an_undated_reminder() {
    let date = compile_date_regex("%Y/%m/%d").unwrap();
    let names = compile_placeholder_regex(r"remind:\W?").unwrap();
    let (remind, failure) =
        line_processor(1, "remind: call mom", "notes.txt", "%Y/%m/%d", &date, &names);
    assert!(failure.is_none());
    assert_eq!(remind.datetime, 0);
    assert_eq!(remind.message, "remind: call mom");
    assert!(remind.meta.is_empty());
}

#[test]
fn unreadable_date_is_handed_back() {
    let date = compile_date_regex("%Y/%m/%d").unwrap();
    let names = compile_placeholder_regex(r"remind:\W?").unwrap();
    let (remind, failure) =
        line_processor(3, "remind: 2024/99/99 never", "notes.txt", "%Y/%m/%d", &date, &names);
    assert_eq!(failure.as_deref(), Some("2024/99/99"));
    assert_eq!(remind.datetime, 0);
}

#[test]
fn scan_finds_the_matching_lines_of_every_file() {
    let config = config_with(r"remind:\W?", true, false);
    let files = vec![
        file("a.rs", "fn main() {}\n// remind: 2020/01/01 buy milk\nlet x = 1;\n"),
        file("b.rs", "  # remind: 2999/01/01 renew passport\n# remind: call mom\n"),
        file("c.rs", "nothing here\n"),
    ];
    let reminds = list_reminders(&config, &files).unwrap();
    let found: Vec<(String, u64, String, i64)> = reminds
        .into_iter()
        .map(|r| (r.position.file, r.position.line, r.message, r.datetime))
        .collect();
    assert_eq!(
        found,
        vec![
            ("a.rs".to_string(), 2, "// remind: 2020/01/01 buy milk\n".to_string(), 1_577_836_800),
            ("b.rs".to_string(), 1, "# remind: 2999/01/01 renew passport\n".to_string(), 32_472_144_000),
            ("b.rs".to_string(), 2, "# remind: call mom\n".to_string(), 0),
        ]
    );
}

#[test]
fn undated_reminder_is_dropped_unless_kept() {
    let files = vec![file("a.txt", "remind: call mom\nremind: 2020/01/01 buy milk\n")];
    for sort in [false, true] {
        let dropped = list_reminders(&config_with(r"remind:\W?", false, sort), &files).unwrap();
        assert_eq!(dropped.len(), 1);
        assert_eq!(dropped[0].message, "remind: 2020/01/01 buy milk\n");
        let kept = list_reminders(&config_with(r"remind:\W?", true, sort), &files).unwrap();
        assert_eq!(kept.len(), 2);
    }
}

#[test]
fn sorted_scan_is_ordered_and_stable() {
    let files = vec![
        file("a.txt", "remind: 2030/01/01 c\nremind: 2020/01/01 a1\n"),
        file("b.txt", "remind: 2025/06/01 b\nremind: 2020/01/01 a2\n"),
    ];
    let sorted = list_reminders(&config_with(r"remind:\W?", false, true), &files).unwrap();
    let messages: Vec<&str> = sorted.iter().map(|r| r.message.as_str()).collect();
    assert_eq!(
        messages,
        vec![
            "remind: 2020/01/01 a1\n",
            "remind: 2020/01/01 a2\n",
            "remind: 2025/06/01 b\n",
            "remind: 2030/01/01 c\n"
        ]
    );
    assert!(sorted.windows(2).all(|pair| pair[0].datetime <= pair[1].datetime));
    let unsorted = list_reminders(&config_with(r"remind:\W?", false, false), &files).unwrap();
    let messages: Vec<&str> = unsorted.iter().map(|r| r.message.as_str()).collect();
    assert_eq!(
        messages,
        vec![
            "remind: 2030/01/01 c\n",
            "remind: 2020/01/01 a1\n",
            "remind: 2025/06/01 b\n",
            "remind: 2020/01/01 a2\n"
        ]
    );
}

#[test]
fn scan_reports_unreadable_dates() {
    let files = vec![file("a.txt", "remind: 2024/99/99 x\nremind: 2024/03/15 y\nremind: 2024/00/10 z\n")];
    let scan = scan_files(&config_with(r"remind:\W?", true, false), &files).unwrap();
    assert_eq!(scan.unparsed_dates, vec!["2024/99/99".to_string(), "2024/00/10".to_string()]);
    let dates: Vec<i64> = scan.reminds.iter().map(|r| r.datetime).collect();
    assert_eq!(dates, vec![0, 1_710_460_800, 0]);
}

#[test]
fn scan_captures_placeholders() {
    let config = config_with(r"@${assignee} remind: ${task}", true, false);
    let files = vec![file("a.txt", "@alice remind: TODO\nplain remind: nothing\n@bob remind: taxes")];
    let found = reminders(&config, &files).unwrap();
    assert!(found.unparsed_dates.is_empty());
    assert_eq!(found.reminds.len(), 2);
    let mut first = found.reminds;
    let second = first.pop().unwrap();
    let first = first.pop().unwrap();
    assert_eq!(
        first.meta.into_entries(),
        vec![
            ("assignee".to_string(), "alice".to_string()),
            ("task".to_string(), "TODO".to_string())
        ]
    );
    assert_eq!(first.position.line, 1);
    assert_eq!(second.position.line, 3);
    assert_eq!(second.message, "@bob remind: taxes");
    assert_eq!(
        second.meta.into_entries(),
        vec![
            ("assignee".to_string(), "bob".to_string()),
            ("task".to_string(), "taxes".to_string())
        ]
    );
}

#[test]
fn scan_stops_at_a_binary_file() {
    let config = config_with(r"remind:\W?", true, false);
    let binary = SourceFile {
        path: "blob.bin".to_string(),
        content: b"\0\0\0remind: 2020/01/01 hidden\n".to_vec(),
    };
    assert!(list_reminders(&config, &vec![binary]).unwrap().is_empty());
}

#[test]
fn scan_of_no_files_finds_nothing() {
    let config = config_with(r"remind:\W?", true, true);
    assert!(list_reminders(&config, &Vec::new()).unwrap().is_empty());
    let empty = vec![file("empty.txt", "")];
    assert!(list_reminders(&config, &empty).unwrap().is_empty());
}

#[test]
fn malformed_comment_pattern_fails_the_scan() {
    let config = config_with("remind(", true, false);
    let files = vec![file("a.txt", "remind( 2020/01/01\n")];
    assert!(matches!(
        scan_files(&config, &files),
        Err(ScanError::CommentPattern(_))
    ));
    assert!(matches!(
        reminders(&config, &files),
        Err(ReminderLintError::FailedGetReminders(ScanError::CommentPattern(_)))
    ));
}

#[test]
fn malformed_date_format_fails_the_scan() {
    let mut file_config = FileConfig::default();
    file_config.datetime_format = "(%Y".to_string();
    let config = ConfigBuilder::new().build(file_config).unwrap();
    assert!(matches!(
        list_reminders(&config, &Vec::new()),
        Err(ScanError::DatePattern(_))
    ));
}

#[test]
fn repeated_placeholder_fails_the_scan() {
    let config = config_with("${a} remind: ${a}", true, false);
    assert!(matches!(
        list_reminders(&config, &Vec::new()),
        Err(ScanError::PlaceholderPattern(_))
    ));
}

#[test]
fn scanner_takes_the_files_one_at_a_time() {
    let config = config_with(r"remind:\W?", false, true);
    let files = vec![
        file("a.txt", "remind: 2030/01/01 c\nremind: call mom\n"),
        file("b.txt", "remind: 2024/99/99 broken\nremind: 2025/06/01 b\n"),
    ];
    let mut scanner = Scanner::new(&config).unwrap();
    for file in &files {
        scanner.scan(file);
    }
    let found = scanner.finish();
    let messages: Vec<&str> = found.reminds.iter().map(|r| r.message.as_str()).collect();
    assert_eq!(messages, vec!["remind: 2025/06/01 b\n", "remind: 2030/01/01 c\n"]);
    assert_eq!(found.unparsed_dates, vec!["2024/99/99".to_string()]);

    let at_once = scan_files(&config, &files).unwrap();
    let messages: Vec<&str> = at_once.reminds.iter().map(|r| r.message.as_str()).collect();
    assert_eq!(messages, vec!["remind: 2025/06/01 b\n", "remind: 2030/01/01 c\n"]);
    assert_eq!(at_once.unparsed_dates, found.unparsed_dates);
}

#[test]
fn scanner_without_files_finds_nothing() {
    let found = Scanner::new(&config_with(r"remind:\W?", true, true)).unwrap().finish();
    assert!(found.reminds.is_empty());
    assert!(found.unparsed_dates.is_empty());
    assert!(matches!(
        Scanner::new(&config_with("remind(", true, true)),
        Err(ScanError::CommentPattern(_))
    ));
}

#[test]
fn date_pattern_is_compiled_from_the_format() {
    let slashes = compile_date_regex("%Y/%m/%d").unwrap();
    let dashes = compile_date_regex("%Y-%m-%d").unwrap();
    let names = compile_placeholder_regex(r"remind:").unwrap();
    let line = "remind: 2024-03-15 or 2023/01/02";
    let (first, _) = line_processor(1, line, "a", "%Y/%m/%d", &slashes, &names);
    let (second, _) = line_processor(1, line, "a", "%Y-%m-%d", &dashes, &names);
    assert_eq!(first.datetime, 1_672_617_600);
    assert_eq!(second.datetime, 1_710_460_800);
    assert!(compile_date_regex("(%Y").is_err());
    assert!(compile_date_regex("").is_ok());
}

#[test]
fn date_without_time_is_a_midnight() {
    for date in ["2024/03/15", "1969/12/31", "1600/02/29", "0001/01/01", "9999/12/31"] {
        let seconds = parse_datetime(date, "%Y/%m/%d").unwrap();
        assert_eq!(seconds.rem_euclid(86_400), 0);
    }
    assert_eq!(parse_datetime("1969/12/31", "%Y/%m/%d").unwrap(), -86_400);
    assert_ne!(
        parse_datetime("2024/03/15 00:00:01", "%Y/%m/%d %H:%M:%S").unwrap().rem_euclid(86_400),
        0
    );
}

#[test]
fn lines_are_counted_from_one() {
    let config = config_with(r"remind:\W?", true, false);
    let files = vec![
        file("first.txt", "remind: on the first line\n\n\nremind: on the fourth"),
        file("second.txt", "remind: again on the first line\r\nremind: on the second\r\n"),
    ];
    let found = list_reminders(&config, &files).unwrap();
    let lines: Vec<u64> = found.iter().map(|r| r.position.line).collect();
    assert_eq!(lines, vec![1, 4, 1, 2]);
    assert!(found.iter().all(|r| r.position.line >= 1));
}
