use std::collections::HashMap;

use reminder_lint::remind::meta::{
    contains_meta_matcher, convert_meta_regex, convert_pattern_to_regex, extract_placeholders,
    try_extract_placeholders,
};

fn extracted(pattern: &str, text: &str) -> Option<HashMap<String, String>> {
    extract_placeholders(pattern, text).map(|meta| meta.into_entries().into_iter().collect())
}

#[test]
fn test_convert_pattern_to_regex() {
    let pattern = r"@${assignee} remind:\W?";
    let expected = r"@(?P<assignee>.*) remind:\W?";
    assert_eq!(convert_pattern_to_regex(pattern), expected);
}

#[test]
fn test_convert_pattern_to_regex_multiple_placeholders() {
    let pattern = r"@${assignee} remind: ${task}\W?";
    let expected = r"@(?P<assignee>.*) remind: (?P<task>.*)\W?";
    assert_eq!(convert_pattern_to_regex(pattern), expected);
}

#[test]
fn test_extract_placeholders() {
    let pattern = r"@${assignee} remind:\W?";
    let text = "@alice remind: TODO";
    let expected = Some(HashMap::from([(
        "assignee".to_string(),
        "alice".to_string(),
    )]));

    assert_eq!(extracted(pattern, text), expected);
}

#[test]
fn test_multiple_extract_placeholders() {
    let pattern = r"@${assignee} remind: ${task}\W?";
    let text = "@alice remind: TODO";
    let expected = Some(HashMap::from([
        ("assignee".to_string(), "alice".to_string()),
        ("task".to_string(), "TODO".to_string()),
    ]));

    assert_eq!(extracted(pattern, text), expected);
}

#[test]
fn test_convert_meta_regex() {
    let reg_str = r"@${assignee} remind:\W?";
    let expected = r"@(.*) remind:\W?";
    assert_eq!(convert_meta_regex(reg_str), expected);
}

#[test]
fn test_convert_meta_regex_multiple_placeholders() {
    let reg_str = r"@${assignee} remind: ${task}\W?";
    let expected = r"@(.*) remind: (.*)\W?";
    assert_eq!(convert_meta_regex(reg_str), expected);
}

#[test]
fn test_native_name_extract_placeholders() {
    let pattern = r"@(?P<assignee>.*) remind:\W?";
    let text = "@alice remind: TODO";
    let expected = Some(HashMap::from([(
        "assignee".to_string(),
        "alice".to_string(),
    )]));

    assert_eq!(extracted(pattern, text), expected);
}

#[test]
fn test_native_name_extract_placeholders_multiple() {
    let pattern = r"@(?P<assignee>.*) remind: (?P<task>.*)\W?";
    let text = "@alice remind: TODO";
    let expected = Some(HashMap::from([
        ("assignee".to_string(), "alice".to_string()),
        ("task".to_string(), "TODO".to_string()),
    ]));

    assert_eq!(extracted(pattern, text), expected);
}

#[test]
fn test_native_name_extract_placeholders_with_special_names() {
    let pattern = r"@(?P<user_1>.*)_remind_(?P<task2>\w+):\W?";
    let text = "@bob_remind_cleanRoom:";
    let expected = Some(HashMap::from([
        ("user_1".to_string(), "bob".to_string()),
        ("task2".to_string(), "cleanRoom".to_string()),
    ]));

    assert_eq!(extracted(pattern, text), expected);
}

#[test]
fn test_native_name_no_match() {
    let pattern = r"@(?P<assignee>.*) remind:\W?";
    let text = "@bob notify: cleanRoom";
    let expected = None;

    assert_eq!(extracted(pattern, text), expected);
}

#[test]
fn test_native_partial_match() {
    let pattern = r"Task: (?P<task>[^,]+), Assigned to: (?P<assignee>[\w\s]+)";
    let text = "Task: Refactor code, Assigned to: Alice, Due: tomorrow";
    let expected = Some(HashMap::from([
        ("task".to_string(), "Refactor code".to_string()),
        ("assignee".to_string(), "Alice".to_string()),
    ]));

    assert_eq!(extracted(pattern, text), expected);
}

#[test]
fn test_native_name_extract_partial_placeholders() {
    let pattern = r"(@(?P<assignee>.+) )?remind: (?P<task>.*)\W?";
    let text = "remind: TODO";
    let expected = Some(HashMap::from([("task".to_string(), "TODO".to_string())]));

    assert_eq!(extracted(pattern, text), expected);
}

#[test]
fn pattern_without_placeholders_is_left_alone() {
    let pattern = r"remind:\W?";
    assert_eq!(convert_pattern_to_regex(pattern), pattern);
    assert_eq!(convert_meta_regex(pattern), pattern);
    assert!(!contains_meta_matcher(pattern));
}

#[test]
fn placeholder_is_recognised() {
    assert!(contains_meta_matcher(r"@${assignee} remind:"));
    assert!(contains_meta_matcher("${a}${b}"));
    assert!(!contains_meta_matcher("${}"));
    assert!(!contains_meta_matcher("${a b}"));
    assert!(!contains_meta_matcher("$a"));
}

#[test]
fn three_placeholders_give_three_keys() {
    let found = extracted("${who}: ${what} by ${when}", "bob: taxes by friday").unwrap();
    assert_eq!(found.len(), 3);
    assert_eq!(found["who"], "bob");
    assert_eq!(found["what"], "taxes");
    assert_eq!(found["when"], "friday");
}

#[test]
fn duplicate_placeholder_name_is_an_error() {
    assert!(try_extract_placeholders("${a} and ${a}", "x and y").is_err());
}

#[test]
fn malformed_pattern_is_an_error() {
    assert!(try_extract_placeholders("remind(", "remind(").is_err());
}

#[test]
fn checked_extraction_agrees_with_the_plain_one() {
    let found = try_extract_placeholders(r"@${assignee} remind:\W?", "@alice remind: TODO")
        .unwrap()
        .map(|meta| meta.into_entries());
    assert_eq!(found, Some(vec![("assignee".to_string(), "alice".to_string())]));
    assert!(try_extract_placeholders(r"@${assignee} remind:", "nothing").unwrap().is_none());
}
