//! The regular-expression engine, as far as the library relies on it.
//!
//! Nothing in this file is proved: each function hands its arguments to the
//! `regex` crate, and its contract records what that crate returns under a
//! name that the rest of the library reasons with.

use regex::Regex;
use vstd::prelude::*;

verus! {

#[verifier::external_type_specification]
#[verifier::external_body]
pub struct ExRegex(regex::Regex);

#[verifier::external_type_specification]
#[verifier::external_body]
pub struct ExRegexError(regex::Error);

/// A compiled regular expression, together with the pattern text that it
/// was compiled from.
///
/// The two fields belong together: the expression is what `Regex::new`
/// makes of the text, with no option set. Nothing outside this file can
/// make or change a value of this type, and in this file `compile` alone
/// makes one; the contracts of the functions below rest on that.
#[derive(Debug)]
pub struct Pattern {
    regex: Regex,
    source: String,
}

impl Pattern {
    /// The pattern text that the expression was compiled from.
    pub closed spec fn source(&self) -> Seq<char> {
        self.source@
    }
}

/// Whether `Regex::new` accepts `pattern`.
pub uninterp spec fn regex_valid(pattern: Seq<char>) -> bool;

/// The leftmost match in `text` of the expression that `Regex::new` makes
/// of `pattern`, if there is one.
pub uninterp spec fn regex_find(pattern: Seq<char>, text: Seq<char>) -> Option<Seq<char>>;

/// `text` with every non-overlapping match of the expression that
/// `Regex::new` makes of `pattern` replaced by the expansion of
/// `replacement`.
pub uninterp spec fn regex_replace_all(
    pattern: Seq<char>,
    text: Seq<char>,
    replacement: Seq<char>,
) -> Seq<char>;

/// The name of each capture group of the expression that `Regex::new`
/// makes of `pattern`, in the order of the opening parentheses; an unnamed
/// group has none.
pub uninterp spec fn regex_group_names(pattern: Seq<char>) -> Seq<Option<Seq<char>>>;

/// What each capture group of the expression that `Regex::new` makes of
/// `pattern` holds for its leftmost match in `text`, in the order of the
/// opening parentheses; `None` as a whole when nothing matches, and for a
/// group that took no part in the match.
pub uninterp spec fn regex_captures(pattern: Seq<char>, text: Seq<char>) -> Option<
    Seq<Option<Seq<char>>>,
>;

/// `Regex::new`: compiles `pattern`, and keeps the text beside the
/// expression. Claimed: whether it succeeds depends on the pattern alone.
#[verifier::external_body]
pub(crate) fn compile(pattern: &str) -> (res: Result<Pattern, regex::Error>)
    ensures
        res is Ok <==> regex_valid(pattern@),
        res matches Ok(re) ==> re.source() == pattern@,
{
    Regex::new(pattern).map(|regex| Pattern { regex, source: pattern.to_string() })
}

/// `Regex::find`: the leftmost match in `text`. Claimed: for an expression
/// that `Regex::new` made, the result depends on the pattern and the text
/// alone.
#[verifier::external_body]
pub(crate) fn find_first<'t>(re: &Pattern, text: &'t str) -> (found: Option<&'t str>)
    ensures
        match found {
            Some(part) => regex_find(re.source(), text@) == Some(part@),
            None => regex_find(re.source(), text@) is None,
        },
{
    re.regex.find(text).map(|m| m.as_str())
}

/// `Regex::is_match`: whether `text` holds a match. Claimed: it does exactly
/// when `Regex::find` would return one.
#[verifier::external_body]
pub(crate) fn has_match(re: &Pattern, text: &str) -> (found: bool)
    ensures
        found <==> regex_find(re.source(), text@) is Some,
{
    re.regex.is_match(text)
}

/// `Regex::replace_all`: replaces every match in `text`. Claimed: for an
/// expression that `Regex::new` made, the result depends on the three
/// texts alone, and is `text` itself when nothing matches.
#[verifier::external_body]
pub(crate) fn replace_every(re: &Pattern, text: &str, replacement: &str) -> (out: String)
    ensures
        out@ == regex_replace_all(re.source(), text@, replacement@),
        regex_find(re.source(), text@) is None ==> out@ == text@,
{
    re.regex.replace_all(text, replacement).into_owned()
}

/// `Regex::capture_names`: the groups' names, one entry per group. Claimed:
/// for an expression that `Regex::new` made, they depend on the pattern
/// alone.
#[verifier::external_body]
pub(crate) fn group_names(re: &Pattern) -> (names: Vec<Option<String>>)
    ensures
        names.deep_view() == regex_group_names(re.source()),
{
    re.regex.capture_names().map(|name| name.map(|n| n.to_string())).collect()
}

/// `Regex::captures`: what each group holds for the leftmost match, read
/// through `Captures::iter`. Claimed: for an expression that `Regex::new`
/// made, the result depends on the pattern and the text alone.
#[verifier::external_body]
pub(crate) fn capture_groups(re: &Pattern, text: &str) -> (groups: Option<Vec<Option<String>>>)
    ensures
        groups.deep_view() == regex_captures(re.source(), text@),
{
    re.regex.captures(text).map(
        |caps| caps.iter().map(|m| m.map(|m| m.as_str().to_string())).collect(),
    )
}

} // verus!
