use reminder_lint::text::{
    chars_of, has_suffix, is_white_space, text_after_last, text_of, trimmed_start,
};
use reminder_lint::text_map::TextMap;

#[test]
fn text_is_taken_apart_and_put_together() {
    let chars = chars_of("héllo wörld");
    assert_eq!(chars.len(), 11);
    assert_eq!(chars[1], 'é');
    assert_eq!(text_of(&chars, 0, 11), "héllo wörld");
    assert_eq!(text_of(&chars, 6, 11), "wörld");
    assert_eq!(text_of(&chars, 3, 3), "");
    assert!(chars_of("").is_empty());
}

#[test]
fn leading_white_space_is_trimmed() {
    assert_eq!(trimmed_start("  \t // remind: x \n"), "// remind: x \n");
    assert_eq!(trimmed_start("\u{3000}\u{a0}x"), "x");
    assert_eq!(trimmed_start("x  "), "x  ");
    assert_eq!(trimmed_start(" \n\t"), "");
    assert_eq!(trimmed_start(""), "");
    for line in ["  a b ", "\r\n x", "none", "\u{2003}wide"] {
        assert_eq!(trimmed_start(line), line.trim_start());
    }
}

#[test]
fn suffix_is_recognised() {
    assert!(has_suffix(&chars_of("remind.yaml"), ".yaml"));
    assert!(has_suffix(&chars_of(".yml"), ".yml"));
    assert!(has_suffix(&chars_of("anything"), ""));
    assert!(!has_suffix(&chars_of("remind.yaml"), ".yml"));
    assert!(!has_suffix(&chars_of("yml"), ".yml"));
    assert!(!has_suffix(&chars_of("remind.yml.bak"), ".yml"));
}

#[test]
fn text_after_the_last_mark_is_found() {
    assert_eq!(text_after_last(&chars_of("a/b.tar.gz"), '.'), "gz");
    assert_eq!(text_after_last(&chars_of("nodot"), '.'), "nodot");
    assert_eq!(text_after_last(&chars_of("trailing."), '.'), "");
    assert_eq!(text_after_last(&chars_of(".hidden"), '.'), "hidden");
    assert_eq!(text_after_last(&chars_of(""), '.'), "");
}

#[test]
fn map_keeps_first_insertion_order() {
    let mut map: TextMap<u32> = TextMap::new();
    assert!(map.is_empty());
    map.insert("b".to_string(), 1);
    map.insert("a".to_string(), 2);
    map.insert("c".to_string(), 3);
    assert_eq!(map.len(), 3);
    assert_eq!(map.key_at(0), "b");
    assert_eq!(*map.value_at(1), 2);
    assert_eq!(map.position(&"c".to_string()), Some(2));
    assert_eq!(map.position(&"d".to_string()), None);
    assert_eq!(map.get(&"a".to_string()), Some(&2));
    assert_eq!(map.get(&"z".to_string()), None);
}

#[test]
fn map_replaces_the_value_of_a_known_key() {
    let mut map: TextMap<u32> = TextMap::new();
    map.insert("a".to_string(), 1);
    map.insert("b".to_string(), 2);
    map.insert("a".to_string(), 3);
    assert_eq!(map.len(), 2);
    assert!(!map.is_empty());
    assert_eq!(map.get(&"a".to_string()), Some(&3));
    assert_eq!(
        map.into_entries(),
        vec![("a".to_string(), 3), ("b".to_string(), 2)]
    );
}

#[test]
fn white_space_is_what_the_standard_library_takes_for_it() {
    for code in 0..=0x10FFFFu32 {
        if let Some(c) = char::from_u32(code) {
            assert_eq!(is_white_space(c), c.is_whitespace(), "U+{:04X}", code);
        }
    }
}

#[test]
fn white_space_is_told_from_what_only_looks_like_it() {
    for c in [' ', '\t', '\n', '\u{b}', '\u{c}', '\r', '\u{85}', '\u{a0}', '\u{1680}'] {
        assert!(is_white_space(c));
    }
    for c in ['\u{2000}', '\u{200a}', '\u{2028}', '\u{2029}', '\u{202f}', '\u{205f}', '\u{3000}'] {
        assert!(is_white_space(c));
    }
    for c in ['a', '0', '\u{8}', '\u{e}', '\u{1f}', '\u{180e}', '\u{200b}', '\u{2060}', '\u{feff}'] {
        assert!(!is_white_space(c));
    }
}
