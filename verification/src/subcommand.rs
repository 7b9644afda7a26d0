//! What each subcommand reports, worked out from what was found: the lines
//! to print and whether the run counts as failed. Printing them, and
//! ending the process, is the caller's.

use crate::config::builder::{
    FileConfig, Trigger, ValidateItem, DEFAULT_CONFIG_FILE_PATH, DEFAULT_IGNORE_FILE_PATH,
};
use crate::remind::aggregate::{is_expired, RemindList};
use crate::remind::{text_views, views, Remind, RemindView};
use crate::text_map::TextMap;
use crate::validate::InvalidRemind;
use vstd::prelude::*;
use vstd::string::StringExecFns;

verus! {

/// How a headline is meant.
#[derive(Clone, Copy, PartialEq, Eq, Debug)]
pub enum Status {
    Success,
    Error,
}

/// The line that sums a report up.
#[derive(Debug)]
pub struct Headline {
    pub status: Status,
    pub text: String,
}

/// What a subcommand has to say.
#[derive(Debug)]
pub struct Report {
    pub headline: Option<Headline>,
    /// The texts to print below the headline, in order.
    pub blocks: Vec<String>,
    /// Whether the process is to end in failure.
    pub failed: bool,
}

/// Which questions `init` has to ask.
#[derive(Clone, Copy, PartialEq, Eq, Debug)]
pub struct InitPlan {
    pub ask_config: bool,
    pub ask_ignore: bool,
}

/// Why `init` has nothing to do.
#[derive(Clone, Copy, PartialEq, Eq, Debug)]
pub enum InitError {
    /// Both the configuration file and the ignore file are there already.
    AlreadyInitialised,
}

/// The decimal digit for `d`.
pub open spec fn digit_of(d: nat) -> char {
    if d == 0 {
        '0'
    } else if d == 1 {
        '1'
    } else if d == 2 {
        '2'
    } else if d == 3 {
        '3'
    } else if d == 4 {
        '4'
    } else if d == 5 {
        '5'
    } else if d == 6 {
        '6'
    } else if d == 7 {
        '7'
    } else if d == 8 {
        '8'
    } else {
        '9'
    }
}

/// `n` in decimal, without leading zeros.
pub open spec fn decimal_of(n: nat) -> Seq<char>
    decreases n,
{
    if n < 10 {
        seq![digit_of(n)]
    } else {
        decimal_of(n / 10).push(digit_of(n % 10))
    }
}

/// A reminder as one line: `<file>:<line> <message>`.
pub open spec fn rendered(remind: RemindView) -> Seq<char> {
    remind.file + seq![':'] + decimal_of(remind.line) + seq![' '] + remind.message
}

/// Each of `reminds` as one line.
pub open spec fn rendered_all(reminds: Seq<RemindView>) -> Seq<Seq<char>> {
    reminds.map_values(|remind: RemindView| rendered(remind))
}

/// The note on one required format that a message lacks.
pub open spec fn missing_note(entry: (String, ValidateItem)) -> Seq<char> {
    "Missing `"@ + entry.0@ + "` format: \x1b[31m"@ + entry.1.format@ + "\x1b[0m \n"@
}

/// The notes on the required formats that a message lacks, one after
/// another.
pub open spec fn missing_notes(entries: Seq<(String, ValidateItem)>) -> Seq<char>
    decreases entries.len(),
{
    if entries.len() == 0 {
        Seq::empty()
    } else {
        missing_notes(entries.drop_last()) + missing_note(entries.last())
    }
}

/// What is printed of one invalid reminder: its line, the notes on what it
/// lacks, and an empty line.
pub open spec fn invalid_block(found: InvalidRemind) -> Seq<char> {
    rendered(found.remind@) + missing_notes(found.unmatched.entries()) + seq!['\n']
}

fn digit(d: u64) -> (c: char)
    requires
        d < 10,
    ensures
        c == digit_of(d as nat),
{
    if d == 0 {
        '0'
    } else if d == 1 {
        '1'
    } else if d == 2 {
        '2'
    } else if d == 3 {
        '3'
    } else if d == 4 {
        '4'
    } else if d == 5 {
        '5'
    } else if d == 6 {
        '6'
    } else if d == 7 {
        '7'
    } else if d == 8 {
        '8'
    } else {
        '9'
    }
}

/// Appends `n` in decimal to `text`.
pub fn push_decimal(text: &mut String, n: u64)
    ensures
        final(text)@ == old(text)@ + decimal_of(n as nat),
    decreases n,
{
    if n >= 10 {
        push_decimal(text, n / 10);
    }
    text.push(digit(n % 10));
    proof {
        if n >= 10 {
            assert(old(text)@ + decimal_of((n / 10) as nat).push(digit_of((n % 10) as nat)) == (
            old(text)@ + decimal_of((n / 10) as nat)).push(digit_of((n % 10) as nat)));
        } else {
            assert(old(text)@ + seq![digit_of(n as nat)] == old(text)@.push(digit_of(n as nat)));
        }
    }
}

/// A reminder as one line: `<file>:<line> <message>`.
pub fn render(remind: &Remind) -> (line: String)
    ensures
        line@ == rendered(remind@),
{
    let mut line = remind.position.file.clone();
    line.push(':');
    push_decimal(&mut line, remind.position.line);
    line.push(' ');
    line.append(remind.message.as_str());
    proof {
        assert(remind.position.file@.push(':') == remind.position.file@ + seq![':']);
        assert((remind.position.file@ + seq![':'] + decimal_of(remind.position.line as nat)).push(
            ' ',
        ) == remind.position.file@ + seq![':'] + decimal_of(remind.position.line as nat)
            + seq![' ']);
    }
    line
}

/// Each of `reminds` as one line, appended to `blocks`.
fn render_onto(blocks: &mut Vec<String>, reminds: &Vec<Remind>)
    ensures
        text_views(final(blocks)@) == text_views(old(blocks)@) + rendered_all(views(reminds@)),
{
    let ghost before = text_views(blocks@);
    let mut i: usize = 0;
    proof {
        assert(views(reminds@.take(0)) =~= Seq::<RemindView>::empty());
        assert(before + rendered_all(views(reminds@.take(0))) =~= before);
    }
    while i < reminds.len()
        invariant
            i <= reminds.len(),
            text_views(blocks@) == before + rendered_all(views(reminds@.take(i as int))),
        decreases reminds.len() - i,
    {
        let ghost held = blocks@;
        let line = render(&reminds[i]);
        proof {
            assert(reminds@.take(i + 1) == reminds@.take(i as int).push(reminds@[i as int]));
            assert(rendered_all(views(reminds@.take(i as int).push(reminds@[i as int])))
                =~= rendered_all(views(reminds@.take(i as int))).push(line@));
            assert(text_views(held.push(line)) =~= text_views(held).push(line@));
            assert((before + rendered_all(views(reminds@.take(i as int)))).push(line@) == before
                + rendered_all(views(reminds@.take(i as int))).push(line@));
        }
        blocks.push(line);
        i += 1;
    }
    proof {
        assert(reminds@.take(reminds@.len() as int) == reminds@);
    }
}

/// `run`: one line for each reminder that is due at `now`, in the order of
/// `reminds`; the run fails where there is one.
pub fn run_report(reminds: Vec<Remind>, now: i64) -> (report: Report)
    ensures
        report.headline is None,
        text_views(report.blocks@) == rendered_all(views(reminds@).filter(is_expired(now as int))),
        report.failed <==> report.blocks@.len() > 0,
{
    let list = crate::remind::aggregate::classify(reminds, now);
    let mut blocks: Vec<String> = Vec::new();
    proof {
        assert(text_views(blocks@) =~= Seq::<Seq<char>>::empty());
    }
    render_onto(&mut blocks, &list.expired);
    proof {
        assert(Seq::<Seq<char>>::empty() + rendered_all(views(list.expired@)) == rendered_all(
            views(list.expired@),
        ));
    }
    let failed = blocks.len() > 0;
    Report { headline: None, blocks, failed }
}

/// `list`: one line for each reminder, the due ones first. Never a failure.
pub fn list_report(list: &RemindList) -> (report: Report)
    ensures
        report.headline is None,
        text_views(report.blocks@) == rendered_all(views(list.expired@)) + rendered_all(
            views(list.upcoming@),
        ),
        !report.failed,
{
    let mut blocks: Vec<String> = Vec::new();
    proof {
        assert(text_views(blocks@) =~= Seq::<Seq<char>>::empty());
    }
    render_onto(&mut blocks, &list.expired);
    proof {
        assert(Seq::<Seq<char>>::empty() + rendered_all(views(list.expired@)) == rendered_all(
            views(list.expired@),
        ));
    }
    render_onto(&mut blocks, &list.upcoming);
    Report { headline: None, blocks, failed: false }
}

/// What is printed of one invalid reminder.
pub fn render_invalid(found: &InvalidRemind) -> (block: String)
    ensures
        block@ == invalid_block(*found),
{
    let mut block = render(&found.remind);
    let ghost line = block@;
    let ghost entries = found.unmatched.entries();
    let mut k: usize = 0;
    proof {
        assert(line + missing_notes(entries.take(0)) == line);
    }
    while k < found.unmatched.len()
        invariant
            k <= entries.len(),
            entries == found.unmatched.entries(),
            block@ == line + missing_notes(entries.take(k as int)),
        decreases entries.len() - k,
    {
        let ghost held = block@;
        block.append("Missing `");
        block.append(found.unmatched.key_at(k).as_str());
        block.append("` format: \x1b[31m");
        block.append(found.unmatched.value_at(k).format.as_str());
        block.append("\x1b[0m \n");
        proof {
            assert(entries.take(k + 1).drop_last() == entries.take(k as int));
            assert(entries.take(k + 1).last() == entries[k as int]);
            assert(block@ == held + missing_note(entries[k as int]));
            assert(line + missing_notes(entries.take(k as int)) + missing_note(entries[k as int])
                == line + (missing_notes(entries.take(k as int)) + missing_note(
                entries[k as int],
            )));
        }
        k += 1;
    }
    proof {
        assert(entries.take(entries.len() as int) == entries);
        assert((line + missing_notes(entries)).push('\n') == line + missing_notes(entries)
            + seq!['\n']);
    }
    block.push('\n');
    block
}

/// `validate`: where some reminder is invalid, their count as an error and
/// a block for each, and the run fails; else a word of success.
pub fn validate_report(invalid: &Vec<InvalidRemind>) -> (report: Report)
    ensures
        report.failed <==> invalid@.len() > 0,
        report.blocks@.len() == invalid@.len(),
        forall|i: int|
            0 <= i < invalid@.len() ==> (#[trigger] report.blocks@[i])@ == invalid_block(
                invalid@[i],
            ),
        match report.headline {
            Some(headline) => if invalid@.len() > 0 {
                headline.status == Status::Error && headline.text@ == "found "@ + decimal_of(
                    invalid@.len(),
                ) + " invalid reminders:"@
            } else {
                headline.status == Status::Success && headline.text@ == "all reminders are valid"@
            },
            None => false,
        },
{
    if invalid.len() == 0 {
        return Report {
            headline: Some(
                Headline {
                    status: Status::Success,
                    text: String::from_str("all reminders are valid"),
                },
            ),
            blocks: Vec::new(),
            failed: false,
        };
    }
    let mut text = String::from_str("found ");
    push_decimal(&mut text, invalid.len() as u64);
    text.append(" invalid reminders:");
    let mut blocks: Vec<String> = Vec::new();
    let mut i: usize = 0;
    while i < invalid.len()
        invariant
            i <= invalid.len(),
            blocks@.len() == i,
            forall|j: int| 0 <= j < i ==> (#[trigger] blocks@[j])@ == invalid_block(invalid@[j]),
        decreases invalid.len() - i,
    {
        blocks.push(render_invalid(&invalid[i]));
        i += 1;
    }
    Report { headline: Some(Headline { status: Status::Error, text }), blocks, failed: true }
}

impl InitError {
    /// The error as a line for the user.
    pub fn message(&self) -> (text: String)
        ensures
            text@ == DEFAULT_CONFIG_FILE_PATH@ + " and "@ + DEFAULT_IGNORE_FILE_PATH@
                + " already exists"@,
    {
        let mut text = String::from_str(DEFAULT_CONFIG_FILE_PATH);
        text.append(" and ");
        text.append(DEFAULT_IGNORE_FILE_PATH);
        text.append(" already exists");
        text
    }
}

/// `init`: asks for a configuration where there is no configuration file,
/// and for an ignore file where there is none; with both there, nothing is
/// left to do, which is an error.
pub fn init_plan(config_exists: bool, ignore_exists: bool) -> (res: Result<InitPlan, InitError>)
    ensures
        res == if config_exists && ignore_exists {
            Err::<InitPlan, InitError>(InitError::AlreadyInitialised)
        } else {
            Ok::<InitPlan, InitError>(
                InitPlan { ask_config: !config_exists, ask_ignore: !ignore_exists },
            )
        },
{
    if config_exists && ignore_exists {
        Err(InitError::AlreadyInitialised)
    } else {
        Ok(InitPlan { ask_config: !config_exists, ask_ignore: !ignore_exists })
    }
}

/// The configuration that `init` writes from the user's answers: the
/// answers themselves, and the date format as the one required format,
/// under the name `datetime`.
pub fn init_config(
    comment_regex: String,
    datetime_format: String,
    search_directory: String,
    remind_if_no_date: bool,
) -> (config: FileConfig)
    ensures
        config.comment_regex == comment_regex,
        config.datetime_format == datetime_format,
        config.trigger.datetime@ == Seq::<char>::empty(),
        config.search_directory == search_directory,
        config.remind_if_no_date == remind_if_no_date,
        config.validates.wf(),
        config.validates.entries().len() == 1,
        config.validates.entries()[0].0@ == "datetime"@,
        config.validates.entries()[0].1.format@ == datetime_format@,
{
    let mut validates: TextMap<ValidateItem> = TextMap::new();
    validates.insert(
        String::from_str("datetime"),
        ValidateItem { format: datetime_format.clone() },
    );
    FileConfig {
        comment_regex,
        datetime_format,
        trigger: Trigger { datetime: String::new() },
        search_directory,
        remind_if_no_date,
        validates,
    }
}

/// What `init` writes into a new ignore file: the configuration file, on a
/// line of its own.
pub fn ignore_file_content() -> (text: String)
    ensures
        text@ == DEFAULT_CONFIG_FILE_PATH@.push('\n'),
{
    let mut text = String::from_str(DEFAULT_CONFIG_FILE_PATH);
    text.push('\n');
    text
}

/// The hint that a question of `init` shows for its default answer.
pub fn default_hint(hint: &str) -> (text: String)
    ensures
        text@ == "Default: "@ + hint@,
{
    let mut text = String::from_str("Default: ");
    text.append(hint);
    text
}

/// The word of success for a file that `init` wrote.
pub fn created_notice(path: &str) -> (text: String)
    ensures
        text@ == "Successfully create ./"@ + path@,
{
    let mut text = String::from_str("Successfully create ./");
    text.append(path);
    text
}

} // verus!
