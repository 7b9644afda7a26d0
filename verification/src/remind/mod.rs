//! Reminders: what one is, how a date format becomes a search pattern, and
//! how the date of a reminder is read.

use crate::calendar::{
    date_epoch, date_seconds, datetime_epoch, datetime_seconds, SECONDS_PER_DAY,
};
use crate::config::Config;
use crate::error::{DateParseError, ScanError};
use crate::pattern::{compile, find_first, regex_find, regex_valid, Pattern};
use crate::search::matcher_valid;
use crate::text::{chars_of, trim_start_of, trimmed_start};
use crate::text_map::TextMap;
use meta::{meta_regex_of, named_pattern_of, placeholders_in, placeholders_of, text_model};
use scan::{can_scan, lines_from_one, scan_files, scanned_reminds};
use vstd::prelude::*;

pub mod aggregate;
pub mod meta;
pub mod scan;

verus! {

/// The byte that marks a file as binary: the scan of a file ends where it
/// meets one.
pub const BINARY_MARK: u8 = 0;

/// Where a reminder stands.
#[derive(Debug)]
pub struct Position {
    pub file: String,
    /// The line's number in the file, counted from one.
    pub line: u64,
}

/// One reminder: a line that the comment pattern matches.
#[derive(Debug)]
pub struct Remind {
    /// The date in seconds since the epoch, UTC; zero where the line holds
    /// no date, or none that can be read.
    pub datetime: i64,
    /// The line, without the white space that it starts with.
    pub message: String,
    pub position: Position,
    /// What the placeholders of the comment pattern captured, by name.
    pub meta: TextMap<String>,
}

/// What a [`Remind`] says, as plain values.
pub struct RemindView {
    pub datetime: int,
    pub message: Seq<char>,
    pub file: Seq<char>,
    pub line: nat,
    pub meta: Map<Seq<char>, Seq<char>>,
}

impl View for Remind {
    type V = RemindView;

    open spec fn view(&self) -> RemindView {
        RemindView {
            datetime: self.datetime as int,
            message: self.message@,
            file: self.position.file@,
            line: self.position.line as nat,
            meta: text_model(self.meta),
        }
    }
}

/// What each of `reminds` says.
pub open spec fn views(reminds: Seq<Remind>) -> Seq<RemindView> {
    reminds.map_values(|remind: Remind| remind@)
}

/// The view of each of `texts`.
pub open spec fn text_views(texts: Seq<String>) -> Seq<Seq<char>> {
    texts.map_values(|text: String| text@)
}

/// A file of the tree: its path as it is to be reported, and its bytes.
#[derive(Debug)]
pub struct SourceFile {
    pub path: String,
    pub content: Vec<u8>,
}

/// A line that the comment pattern matches: where it stands and its text,
/// line terminator included.
pub struct MatchedLine {
    pub file: Seq<char>,
    pub number: u64,
    pub text: Seq<char>,
}

/// Whether `%c` is one of the six date directives.
pub open spec fn is_date_directive(c: char) -> bool {
    c == 'Y' || c == 'm' || c == 'd' || c == 'H' || c == 'M' || c == 'S'
}

/// Whether `%c` is a time-of-day directive.
pub open spec fn is_time_directive(c: char) -> bool {
    c == 'H' || c == 'M' || c == 'S'
}

/// How many digits the directive `%c` stands for.
pub open spec fn directive_digits(c: char) -> char {
    if c == 'Y' {
        '4'
    } else {
        '2'
    }
}

/// The pattern fragment `\d{n}` for the directive `%c`.
pub open spec fn directive_fragment(c: char) -> Seq<char> {
    seq!['\\', 'd', '{', directive_digits(c), '}']
}

/// Whether a date directive starts at the head of `format`.
pub open spec fn directive_at_head(format: Seq<char>) -> bool {
    format.len() >= 2 && format[0] == '%' && is_date_directive(format[1])
}

/// The search pattern for a date format: each date directive becomes its
/// digit-count fragment, read from left to right, and every other character
/// stays as it is.
pub open spec fn date_regex_of(format: Seq<char>) -> Seq<char>
    decreases format.len(),
{
    if format.len() == 0 {
        Seq::empty()
    } else if directive_at_head(format) {
        directive_fragment(format[1]) + date_regex_of(format.skip(2))
    } else {
        seq![format[0]] + date_regex_of(format.skip(1))
    }
}

/// Whether `format` asks for a time of day: `%H`, `%M` or `%S` occurs in it.
pub open spec fn has_time_directive(format: Seq<char>) -> bool {
    exists|i: int|
        0 <= i && i + 1 < format.len() && format[i] == '%' && is_time_directive(
            #[trigger] format[i + 1],
        )
}

/// The instant that `raw` stands for under `format`: zero, the mark of "no
/// date", for an empty text; else what the calendar reads, as a date with a
/// time of day where the format asks for one and as a date at midnight where
/// it does not. `None` where the calendar does not accept `raw`.
pub open spec fn parsed_epoch(raw: Seq<char>, format: Seq<char>) -> Option<int> {
    if raw.len() == 0 {
        Some(0)
    } else if has_time_directive(format) {
        datetime_epoch(raw, format)
    } else {
        date_epoch(raw, format)
    }
}

/// A format without a `%` is its own pattern.
pub proof fn lemma_plain_format(format: Seq<char>)
    requires
        forall|i: int| 0 <= i < format.len() ==> format[i] != '%',
    ensures
        date_regex_of(format) == format,
    decreases format.len(),
{
    if format.len() > 0 {
        lemma_plain_format(format.skip(1));
        assert(seq![format[0]] + format.skip(1) == format);
    }
}

/// A directive alone becomes its digit count: `%Y` four digits, each of
/// the others two.
pub proof fn lemma_directive_alone(c: char)
    requires
        is_date_directive(c),
    ensures
        date_regex_of(seq!['%', c]) == seq!['\\', 'd', '{', if c == 'Y' {
            '4'
        } else {
            '2'
        }, '}'],
{
    let format = seq!['%', c];
    assert(directive_at_head(format));
    assert(format.skip(2) == Seq::<char>::empty());
    assert(date_regex_of(format.skip(2)) == Seq::<char>::empty());
    assert(directive_fragment(c) + Seq::<char>::empty() == directive_fragment(c));
}

/// The pattern of a format is made of the patterns of its parts, wherever
/// the cut does not part a `%` from what follows it.
pub proof fn lemma_date_regex_concat(head: Seq<char>, tail: Seq<char>)
    requires
        head.len() == 0 || head.last() != '%',
    ensures
        date_regex_of(head + tail) == date_regex_of(head) + date_regex_of(tail),
    decreases head.len(),
{
    let whole = head + tail;
    if head.len() == 0 {
        assert(whole == tail);
        assert(Seq::<char>::empty() + date_regex_of(tail) == date_regex_of(tail));
    } else if directive_at_head(head) {
        assert(directive_at_head(whole));
        assert(whole.skip(2) == head.skip(2) + tail);
        if head.skip(2).len() > 0 {
            assert(head.skip(2).last() == head.last());
        }
        lemma_date_regex_concat(head.skip(2), tail);
        assert(directive_fragment(head[1]) + (date_regex_of(head.skip(2)) + date_regex_of(tail))
            == directive_fragment(head[1]) + date_regex_of(head.skip(2)) + date_regex_of(tail));
    } else {
        assert(!directive_at_head(whole)) by {
            if head.len() == 1 {
                assert(head[0] == head.last());
            }
        }
        assert(whole.skip(1) == head.skip(1) + tail);
        if head.skip(1).len() > 0 {
            assert(head.skip(1).last() == head.last());
        }
        lemma_date_regex_concat(head.skip(1), tail);
        assert(seq![head[0]] + (date_regex_of(head.skip(1)) + date_regex_of(tail)) == seq![
            head[0],
        ] + date_regex_of(head.skip(1)) + date_regex_of(tail));
    }
}

fn is_date_directive_char(c: char) -> (b: bool)
    ensures
        b == is_date_directive(c),
{
    c == 'Y' || c == 'm' || c == 'd' || c == 'H' || c == 'M' || c == 'S'
}

/// Turns a date format into the pattern that finds such a date in a line.
pub fn datetime_format_to_regex(format: &str) -> (re: String)
    ensures
        re@ == date_regex_of(format@),
{
    let chars = chars_of(format);
    let mut re = String::new();
    let mut i: usize = 0;
    proof {
        assert(format@.skip(0) == format@);
        assert(re@ + date_regex_of(format@) == date_regex_of(format@));
    }
    while i < chars.len()
        invariant
            chars@ == format@,
            i <= chars.len(),
            date_regex_of(format@) == re@ + date_regex_of(format@.skip(i as int)),
        decreases chars.len() - i,
    {
        let ghost rest = format@.skip(i as int);
        let ghost before = re@;
        if chars[i] == '%' && i + 1 < chars.len() && is_date_directive_char(chars[i + 1]) {
            let c = chars[i + 1];
            re.push('\\');
            re.push('d');
            re.push('{');
            re.push(if c == 'Y' { '4' } else { '2' });
            re.push('}');
            proof {
                assert(directive_at_head(rest));
                assert(rest.skip(2) == format@.skip(i + 2));
                assert(re@ == before + directive_fragment(c));
            }
            i += 2;
        } else {
            re.push(chars[i]);
            proof {
                assert(!directive_at_head(rest));
                assert(rest.skip(1) == format@.skip(i + 1));
                assert(re@ == before + seq![rest[0]]);
            }
            i += 1;
        }
    }
    proof {
        assert(re@ + date_regex_of(format@.skip(i as int)) == re@);
    }
    re
}

/// Compiles the pattern that finds a date of the format `format` in a line.
///
/// Fails where the engine refuses the pattern: whatever in the format is
/// no date directive is taken as pattern text.
pub fn compile_date_regex(format: &str) -> (res: Result<Pattern, regex::Error>)
    ensures
        res is Ok <==> regex_valid(date_regex_of(format@)),
        res matches Ok(re) ==> re.source() == date_regex_of(format@),
{
    let pattern = datetime_format_to_regex(format);
    compile(pattern.as_str())
}

fn is_time_directive_char(c: char) -> (b: bool)
    ensures
        b == is_time_directive(c),
{
    c == 'H' || c == 'M' || c == 'S'
}

/// Whether `format` holds `%H`, `%M` or `%S`.
pub fn wants_time_of_day(format: &str) -> (b: bool)
    ensures
        b == has_time_directive(format@),
{
    let chars = chars_of(format);
    let mut i: usize = 0;
    while i < chars.len() && i + 1 < chars.len()
        invariant
            chars@ == format@,
            forall|j: int|
                0 <= j < i && j + 1 < format@.len() ==> !(format@[j] == '%' && is_time_directive(
                    #[trigger] format@[j + 1],
                )),
        decreases chars.len() - i,
    {
        if chars[i] == '%' && is_time_directive_char(chars[i + 1]) {
            assert(is_time_directive(format@[i as int + 1]));
            return true;
        }
        i += 1;
    }
    false
}

/// Reads the date of a reminder as seconds since the epoch, in UTC.
///
/// An empty `v` is no date, and gives zero. Any other text must conform to
/// `format`, with a time of day exactly when the format names one; a
/// format that names none gives the midnight that begins the day.
pub fn parse_datetime(v: &str, format: &str) -> (res: Result<i64, DateParseError>)
    ensures
        match res {
            Ok(seconds) => parsed_epoch(v@, format@) == Some(seconds as int),
            Err(_) => parsed_epoch(v@, format@) is None,
        },
        v@.len() == 0 ==> (res matches Ok(seconds) && seconds == 0),
        !has_time_directive(format@) ==> (res matches Ok(seconds) ==> seconds % SECONDS_PER_DAY
            == 0),
{
    if v.is_empty() {
        return Ok(0);
    }
    let parsed = if wants_time_of_day(format) {
        datetime_seconds(v, format)
    } else {
        date_seconds(v, format)
    };
    match parsed {
        Ok(seconds) => Ok(seconds),
        Err(cause) => Err(DateParseError { cause }),
    }
}

/// The part of `line` that looks like a date: the first match of
/// `date_pattern`, or the empty text.
pub open spec fn date_text_of(date_pattern: Seq<char>, line: Seq<char>) -> Seq<char> {
    match regex_find(date_pattern, line) {
        Some(text) => text,
        None => Seq::empty(),
    }
}

/// Whether `line` holds a date that cannot be read under `format`.
pub open spec fn is_unparsed(line: MatchedLine, format: Seq<char>, date_pattern: Seq<char>) -> bool {
    parsed_epoch(date_text_of(date_pattern, line.text), format) is None
}

/// The reminder that a matched line gives.
pub open spec fn remind_of(
    line: MatchedLine,
    format: Seq<char>,
    date_pattern: Seq<char>,
    named_pattern: Seq<char>,
) -> RemindView {
    RemindView {
        datetime: match parsed_epoch(date_text_of(date_pattern, line.text), format) {
            Some(seconds) => seconds,
            None => 0,
        },
        message: trim_start_of(line.text),
        file: line.file,
        line: line.number as nat,
        meta: match placeholders_of(named_pattern, line.text) {
            Some(captured) => captured,
            None => Map::empty(),
        },
    }
}

/// Makes the reminder of one matched line.
///
/// The date is the first match of `datetime_regex` in the line, read under
/// `datetime_format`. A date that cannot be read leaves the reminder
/// without one and is handed back beside it.
pub fn line_processor(
    line_num: u64,
    line: &str,
    entry_path: &str,
    datetime_format: &str,
    datetime_regex: &Pattern,
    placeholder_regex: &Pattern,
) -> (out: (Remind, Option<String>))
    ensures
        out.0.meta.wf(),
        out.0@ == remind_of(
            MatchedLine { file: entry_path@, number: line_num, text: line@ },
            datetime_format@,
            datetime_regex.source(),
            placeholder_regex.source(),
        ),
        !has_time_directive(datetime_format@) ==> out.0.datetime % SECONDS_PER_DAY == 0,
        match out.1 {
            Some(text) => parsed_epoch(text@, datetime_format@) is None && text@ == date_text_of(
                datetime_regex.source(),
                line@,
            ),
            None => parsed_epoch(
                date_text_of(datetime_regex.source(), line@),
                datetime_format@,
            ) is Some,
        },
{
    proof {
        reveal_strlit("");
    }
    let datetime_str = match find_first(datetime_regex, line) {
        Some(text) => text,
        None => "",
    };
    assert(datetime_str@ =~= date_text_of(datetime_regex.source(), line@));
    let (datetime, failure) = match parse_datetime(datetime_str, datetime_format) {
        Ok(seconds) => (seconds, None),
        Err(_) => (0, Some(datetime_str.to_owned())),
    };
    let meta = match placeholders_in(placeholder_regex, line) {
        Some(captured) => captured,
        None => {
            let empty: TextMap<String> = TextMap::new();
            assert(text_model(empty) =~= Map::<Seq<char>, Seq<char>>::empty());
            empty
        },
    };
    let remind = Remind {
        datetime,
        message: trimmed_start(line),
        position: Position { file: entry_path.to_owned(), line: line_num },
        meta,
    };
    (remind, failure)
}

/// The reminders of `files`, filtered and ordered as `config` asks.
///
/// Fails, before any file is looked at, where the comment pattern or the
/// date format of `config` gives no valid pattern.
pub fn list_reminders(config: &Config, files: &Vec<SourceFile>) -> (res: Result<
    Vec<Remind>,
    ScanError,
>)
    ensures
        match res {
            Ok(reminds) => {
                &&& can_scan(config@)
                &&& views(reminds@) == scanned_reminds(config@, files@)
                &&& lines_from_one(views(reminds@))
            },
            Err(ScanError::CommentPattern(_)) => !matcher_valid(
                meta_regex_of(config@.comment_regex),
            ),
            Err(ScanError::DatePattern(_)) => {
                &&& matcher_valid(meta_regex_of(config@.comment_regex))
                &&& !regex_valid(date_regex_of(config@.datetime_format))
            },
            Err(ScanError::PlaceholderPattern(_)) => {
                &&& matcher_valid(meta_regex_of(config@.comment_regex))
                &&& regex_valid(date_regex_of(config@.datetime_format))
                &&& !regex_valid(named_pattern_of(config@.comment_regex))
            },
        },
{
    match scan_files(config, files) {
        Ok(found) => Ok(found.reminds),
        Err(cause) => Err(cause),
    }
}

} // verus!
