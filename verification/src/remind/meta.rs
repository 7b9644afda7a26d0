//! Placeholders: the `${name}` tokens of a comment pattern, and what they
//! capture in a line.

use crate::pattern::{
    capture_groups, compile, group_names, has_match, regex_captures, regex_find,
    regex_group_names, regex_replace_all, regex_valid, replace_every, Pattern,
};
use crate::text_map::TextMap;
use vstd::prelude::*;

verus! {

/// The pattern that recognises one placeholder: `${`, a name made of word
/// characters, `}`.
pub const PLACEHOLDER_PATTERN: &'static str = r"\$\{(\w+)\}";

/// What a placeholder becomes where its capture is wanted by name.
pub const NAMED_GROUP: &'static str = "(?P<$1>.*)";

/// What a placeholder becomes where only the match counts.
pub const PLAIN_GROUP: &'static str = "(.*)";

/// Whether `text` holds a placeholder.
pub open spec fn has_placeholder(text: Seq<char>) -> bool {
    regex_valid(PLACEHOLDER_PATTERN@) && regex_find(PLACEHOLDER_PATTERN@, text) is Some
}

/// `text` with each placeholder replaced by the expansion of `replacement`;
/// `text` itself where it holds none.
pub open spec fn placeholders_replaced(text: Seq<char>, replacement: Seq<char>) -> Seq<char> {
    if has_placeholder(text) {
        regex_replace_all(PLACEHOLDER_PATTERN@, text, replacement)
    } else {
        text
    }
}

/// The comment pattern with each placeholder as a named capture group.
pub open spec fn named_pattern_of(pattern: Seq<char>) -> Seq<char> {
    placeholders_replaced(pattern, NAMED_GROUP@)
}

/// The comment pattern with each placeholder as an unnamed group.
pub open spec fn meta_regex_of(pattern: Seq<char>) -> Seq<char> {
    placeholders_replaced(pattern, PLAIN_GROUP@)
}

/// The captures of the first `n` groups, by name: a group counts where it
/// has a name and took part in the match.
pub open spec fn captured_upto(
    names: Seq<Option<Seq<char>>>,
    groups: Seq<Option<Seq<char>>>,
    n: nat,
) -> Map<Seq<char>, Seq<char>>
    decreases n,
{
    if n == 0 {
        Map::empty()
    } else {
        let before = captured_upto(names, groups, (n - 1) as nat);
        if n <= names.len() && n <= groups.len() && names[n - 1] is Some && groups[n - 1] is Some {
            before.insert(names[n - 1]->0, groups[n - 1]->0)
        } else {
            before
        }
    }
}

/// The captures of all groups, by name.
pub open spec fn captured(names: Seq<Option<Seq<char>>>, groups: Seq<Option<Seq<char>>>) -> Map<
    Seq<char>,
    Seq<char>,
> {
    captured_upto(
        names,
        groups,
        if names.len() <= groups.len() {
            names.len()
        } else {
            groups.len()
        },
    )
}

/// What the named groups of the compiled `pattern` capture in `text`:
/// nothing at all where the pattern does not match.
pub open spec fn placeholders_of(pattern: Seq<char>, text: Seq<char>) -> Option<
    Map<Seq<char>, Seq<char>>,
> {
    match regex_captures(pattern, text) {
        Some(groups) => Some(captured(regex_group_names(pattern), groups)),
        None => None,
    }
}

/// A map of texts, read as a map of character sequences.
pub open spec fn text_model(map: TextMap<String>) -> Map<Seq<char>, Seq<char>> {
    map@.map_values(|value: String| value@)
}

/// Whether the `i`-th group has a name and took part in the match.
pub open spec fn is_captured(
    names: Seq<Option<Seq<char>>>,
    groups: Seq<Option<Seq<char>>>,
    i: int,
) -> bool {
    0 <= i < names.len() && i < groups.len() && names[i] is Some && groups[i] is Some
}

/// The names under which something is captured are those of the named
/// groups that took part in the match, and no others.
pub proof fn lemma_captured_names(
    names: Seq<Option<Seq<char>>>,
    groups: Seq<Option<Seq<char>>>,
    n: nat,
    name: Seq<char>,
)
    ensures
        captured_upto(names, groups, n).dom().contains(name) <==> exists|i: int|
            i < n && #[trigger] is_captured(names, groups, i) && names[i] == Some(name),
    decreases n,
{
    if n > 0 {
        lemma_captured_names(names, groups, (n - 1) as nat, name);
        if captured_upto(names, groups, n).dom().contains(name) {
            if captured_upto(names, groups, (n - 1) as nat).dom().contains(name) {
                let i = choose|i: int|
                    i < n - 1 && #[trigger] is_captured(names, groups, i) && names[i] == Some(
                        name,
                    );
                assert(i < n && is_captured(names, groups, i) && names[i] == Some(name));
            } else {
                assert(is_captured(names, groups, n - 1) && names[n - 1] == Some(name));
            }
        }
        if exists|i: int|
            i < n && #[trigger] is_captured(names, groups, i) && names[i] == Some(name) {
            let i = choose|i: int|
                i < n && #[trigger] is_captured(names, groups, i) && names[i] == Some(name);
            if i < n - 1 {
                assert(is_captured(names, groups, i) && names[i] == Some(name));
            }
        }
    }
}

/// Under the name of a group that took part in the match stands what that
/// group matched, provided that no later group bears the same name.
pub proof fn lemma_captured_value(
    names: Seq<Option<Seq<char>>>,
    groups: Seq<Option<Seq<char>>>,
    n: nat,
    i: int,
)
    requires
        i < n,
        is_captured(names, groups, i),
        forall|j: int| i < j < n && #[trigger] is_captured(names, groups, j) ==> names[j] != names[i],
    ensures
        captured_upto(names, groups, n).dom().contains(names[i]->0),
        captured_upto(names, groups, n)[names[i]->0] == groups[i]->0,
    decreases n,
{
    if i < n - 1 {
        lemma_captured_value(names, groups, (n - 1) as nat, i);
        if is_captured(names, groups, n - 1) {
            assert(names[n - 1] != names[i]);
        }
    }
}

fn replace_placeholders(text: &str, replacement: &str) -> (out: String)
    ensures
        out@ == placeholders_replaced(text@, replacement@),
{
    match compile(PLACEHOLDER_PATTERN) {
        Ok(re) => replace_every(&re, text, replacement),
        Err(_) => text.to_owned(),
    }
}

/// Rewrites each `${name}` of `pattern` into the capture group `(?P<name>.*)`.
pub fn convert_pattern_to_regex(pattern: &str) -> (out: String)
    ensures
        out@ == named_pattern_of(pattern@),
        !has_placeholder(pattern@) ==> out@ == pattern@,
{
    replace_placeholders(pattern, NAMED_GROUP)
}

/// Rewrites each `${name}` of `reg_str` into the unnamed group `(.*)`.
pub fn convert_meta_regex(reg_str: &str) -> (out: String)
    ensures
        out@ == meta_regex_of(reg_str@),
        !has_placeholder(reg_str@) ==> out@ == reg_str@,
{
    replace_placeholders(reg_str, PLAIN_GROUP)
}

/// Whether `text` holds a `${name}` placeholder.
pub fn contains_meta_matcher(text: &str) -> (found: bool)
    ensures
        found == has_placeholder(text@),
{
    match compile(PLACEHOLDER_PATTERN) {
        Ok(re) => has_match(&re, text),
        Err(_) => false,
    }
}

/// Compiles the comment pattern with its placeholders as named groups.
///
/// Fails where the engine refuses the rewritten pattern: a malformed
/// expression, or a name used twice.
pub fn compile_placeholder_regex(pattern: &str) -> (res: Result<Pattern, regex::Error>)
    ensures
        res is Ok <==> regex_valid(named_pattern_of(pattern@)),
        res matches Ok(re) ==> re.source() == named_pattern_of(pattern@),
{
    let named = convert_pattern_to_regex(pattern);
    compile(named.as_str())
}

/// What the named groups of `re` capture in `text`.
pub fn placeholders_in(re: &Pattern, text: &str) -> (found: Option<TextMap<String>>)
    ensures
        match found {
            Some(map) => map.wf() && placeholders_of(re.source(), text@) == Some(
                text_model(map),
            ),
            None => placeholders_of(re.source(), text@) is None,
        },
{
    let groups = match capture_groups(re, text) {
        Some(groups) => groups,
        None => {
            return None;
        },
    };
    let names = group_names(re);
    let n = if names.len() <= groups.len() {
        names.len()
    } else {
        groups.len()
    };
    let mut map: TextMap<String> = TextMap::new();
    let mut i: usize = 0;
    proof {
        assert(text_model(map) =~= Map::<Seq<char>, Seq<char>>::empty());
    }
    while i < n
        invariant
            i <= n,
            n <= names.len(),
            n <= groups.len(),
            map.wf(),
            text_model(map) == captured_upto(names.deep_view(), groups.deep_view(), i as nat),
        decreases n - i,
    {
        let ghost before = map;
        proof {
            assert(names.deep_view()[i as int] == names[i as int].deep_view());
            assert(groups.deep_view()[i as int] == groups[i as int].deep_view());
        }
        match (&names[i], &groups[i]) {
            (Some(name), Some(value)) => {
                let key = name.clone();
                let held = value.clone();
                map.insert(key, held);
                proof {
                    assert(text_model(map) =~= text_model(before).insert(name@, value@));
                }
            },
            _ => {},
        }
        i += 1;
    }
    Some(map)
}

/// What the placeholders of `pattern` capture in `text`: a map from each
/// name that took part in the match to what it matched, or nothing where
/// the pattern does not match.
///
/// The pattern, with its placeholders as named groups, must be one that
/// the engine accepts; `compile_placeholder_regex` tells.
pub fn extract_placeholders(pattern: &str, text: &str) -> (found: Option<TextMap<String>>)
    requires
        regex_valid(named_pattern_of(pattern@)),
    ensures
        match found {
            Some(map) => map.wf() && placeholders_of(named_pattern_of(pattern@), text@) == Some(
                text_model(map),
            ),
            None => placeholders_of(named_pattern_of(pattern@), text@) is None,
        },
{
    match compile_placeholder_regex(pattern) {
        Ok(re) => placeholders_in(&re, text),
        Err(_) => None,
    }
}

/// As `extract_placeholders`, for a pattern that may be refused: the
/// engine's complaint where it is.
pub fn try_extract_placeholders(pattern: &str, text: &str) -> (res: Result<
    Option<TextMap<String>>,
    regex::Error,
>)
    ensures
        res is Ok <==> regex_valid(named_pattern_of(pattern@)),
        res matches Ok(found) ==> match found {
            Some(map) => map.wf() && placeholders_of(named_pattern_of(pattern@), text@) == Some(
                text_model(map),
            ),
            None => placeholders_of(named_pattern_of(pattern@), text@) is None,
        },
{
    match compile_placeholder_regex(pattern) {
        Ok(_) => Ok(extract_placeholders(pattern, text)),
        Err(cause) => Err(cause),
    }
}

} // verus!
