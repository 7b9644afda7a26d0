//! The line search, as far as the library relies on it.
//!
//! Nothing in this file is proved: the functions hand their arguments to
//! `grep-regex` and `grep-searcher`, and their contracts record what comes
//! back under a name.

use grep_regex::{RegexMatcher, RegexMatcherBuilder};
use grep_searcher::sinks::UTF8;
use grep_searcher::{BinaryDetection, SearcherBuilder};
use vstd::prelude::*;

verus! {

#[verifier::external_type_specification]
#[verifier::external_body]
pub struct ExRegexMatcher(grep_regex::RegexMatcher);

#[verifier::external_type_specification]
#[verifier::external_body]
pub struct ExMatcherError(grep_regex::Error);

/// A matcher for the line search, together with the pattern text that it
/// was built from.
///
/// The two fields belong together: the matcher is what
/// `RegexMatcherBuilder::build` makes of the text on a builder left at
/// its defaults. Nothing outside this file can make or change a value of
/// this type, and in this file `build_matcher` alone makes one; the
/// contract of `search_lines` rests on that.
#[derive(Debug)]
pub struct LineMatcher {
    matcher: RegexMatcher,
    source: String,
}

impl LineMatcher {
    /// The pattern text that the matcher was built from.
    pub closed spec fn source(&self) -> Seq<char> {
        self.source@
    }
}

/// Whether a line matcher can be built from `pattern`.
pub uninterp spec fn matcher_valid(pattern: Seq<char>) -> bool;

/// The lines of `content` in which the matcher built from `pattern`
/// matches, in the order of the file, each with its line number and its
/// text, line terminator included. The search gives up at the byte
/// `stop_byte`, the mark of a binary file, and at a matching line that is
/// not UTF-8.
pub uninterp spec fn matching_lines(pattern: Seq<char>, stop_byte: u8, content: Seq<u8>) -> Seq<
    (u64, Seq<char>),
>;

/// `RegexMatcherBuilder::build` on a builder left at its defaults; the
/// text is kept beside the matcher. Claimed: whether it succeeds depends
/// on the pattern alone.
#[verifier::external_body]
pub(crate) fn build_matcher(pattern: &str) -> (res: Result<LineMatcher, grep_regex::Error>)
    ensures
        res is Ok <==> matcher_valid(pattern@),
        res matches Ok(matcher) ==> matcher.source() == pattern@,
{
    RegexMatcherBuilder::new().build(pattern).map(
        |matcher| LineMatcher { matcher, source: pattern.to_string() },
    )
}

/// Keeps a line that the search hands over, and asks for the next one.
fn keep_line(lines: &mut Vec<(u64, String)>, number: u64, line: &str) -> (go_on: bool)
    ensures
        go_on,
        final(lines)@.len() == old(lines)@.len() + 1,
        final(lines)@.drop_last() == old(lines)@,
        final(lines)@.last().0 == number,
        final(lines)@.last().1@ == line@,
{
    lines.push((number, line.to_owned()));
    true
}

/// `Searcher::search_reader` over `content`, on a searcher that counts lines
/// and quits at `stop_byte`, with a `UTF8` sink that keeps every line it is
/// given, through `keep_line`. Claimed: for a matcher that `build_matcher`
/// made, the lines kept depend on the pattern, the stop byte and the
/// content alone; and lines are counted from one.
#[verifier::external_body]
pub(crate) fn search_lines(matcher: &LineMatcher, stop_byte: u8, content: &[u8]) -> (lines: Vec<
    (u64, String),
>)
    ensures
        lines.deep_view() == matching_lines(matcher.source(), stop_byte, content@),
        forall|i: int| 0 <= i < lines@.len() ==> (#[trigger] lines@[i]).0 >= 1,
{
    let mut searcher = SearcherBuilder::new()
        .binary_detection(BinaryDetection::quit(stop_byte))
        .line_number(true)
        .build();
    let mut lines = Vec::new();
    let keep = |number: u64, line: &str| Ok(keep_line(&mut lines, number, line));
    let _ = searcher.search_reader(&matcher.matcher, content, UTF8(keep));
    lines
}

} // verus!
