//! The scan: from the files of a tree to the reminders of a run.

use super::aggregate::{aggregate, aggregated, lemma_reported_were_found};
use super::meta::{
    compile_placeholder_regex, convert_meta_regex, meta_regex_of, named_pattern_of,
};
use super::{
    compile_date_regex, date_regex_of, date_text_of, is_unparsed, line_processor,
    remind_of, text_views, views, MatchedLine, Remind, RemindView, SourceFile, BINARY_MARK,
};
use crate::config::{Config, ConfigView};
use crate::error::ScanError;
use crate::pattern::{regex_valid, Pattern};
use crate::search::{build_matcher, matcher_valid, matching_lines, search_lines, LineMatcher};
use crate::Reminders;
use vstd::prelude::*;

verus! {

/// The lines of `file` that `pattern` matches.
pub open spec fn file_lines(file: SourceFile, pattern: Seq<char>) -> Seq<MatchedLine> {
    matching_lines(pattern, BINARY_MARK, file.content@).map_values(
        |line: (u64, Seq<char>)| MatchedLine { file: file.path@, number: line.0, text: line.1 },
    )
}

/// The lines of `files` that `pattern` matches, file by file.
pub open spec fn tree_lines(files: Seq<SourceFile>, pattern: Seq<char>) -> Seq<MatchedLine>
    decreases files.len(),
{
    if files.len() == 0 {
        Seq::empty()
    } else {
        tree_lines(files.drop_last(), pattern) + file_lines(files.last(), pattern)
    }
}

/// The reminders of `lines`, one for each.
pub open spec fn reminds_of(
    lines: Seq<MatchedLine>,
    format: Seq<char>,
    date_pattern: Seq<char>,
    named_pattern: Seq<char>,
) -> Seq<RemindView> {
    lines.map_values(|line: MatchedLine| remind_of(line, format, date_pattern, named_pattern))
}

/// The dates in `lines` that cannot be read, in the order of the lines.
pub open spec fn unparsed_of(lines: Seq<MatchedLine>, format: Seq<char>, date_pattern: Seq<char>) -> Seq<
    Seq<char>,
> {
    lines.filter(|line: MatchedLine| is_unparsed(line, format, date_pattern)).map_values(
        |line: MatchedLine| date_text_of(date_pattern, line.text),
    )
}

/// Whether the three patterns that a scan needs can be had from
/// `settings`: the comment pattern as the line search takes it, the date
/// pattern, and the comment pattern with its placeholders named.
pub open spec fn can_scan(settings: ConfigView) -> bool {
    &&& matcher_valid(meta_regex_of(settings.comment_regex))
    &&& regex_valid(date_regex_of(settings.datetime_format))
    &&& regex_valid(named_pattern_of(settings.comment_regex))
}

/// The lines that a scan of `files` turns into reminders.
pub open spec fn scanned_lines(settings: ConfigView, files: Seq<SourceFile>) -> Seq<MatchedLine> {
    tree_lines(files, meta_regex_of(settings.comment_regex))
}

/// The reminders that a scan of `files` finds, before any is dropped.
pub open spec fn found_reminds(settings: ConfigView, files: Seq<SourceFile>) -> Seq<RemindView> {
    reminds_of(
        scanned_lines(settings, files),
        settings.datetime_format,
        date_regex_of(settings.datetime_format),
        named_pattern_of(settings.comment_regex),
    )
}

/// The reminders that a scan of `files` reports.
pub open spec fn scanned_reminds(settings: ConfigView, files: Seq<SourceFile>) -> Seq<RemindView> {
    aggregated(
        found_reminds(settings, files),
        settings.remind_if_no_date,
        settings.sort_by_deadline,
    )
}

/// The unreadable dates that a scan of `files` reports.
pub open spec fn scanned_unparsed(settings: ConfigView, files: Seq<SourceFile>) -> Seq<Seq<char>> {
    unparsed_of(
        scanned_lines(settings, files),
        settings.datetime_format,
        date_regex_of(settings.datetime_format),
    )
}

/// Whether every reminder stands on a line that is counted from one.
pub open spec fn lines_from_one(reminds: Seq<RemindView>) -> bool {
    forall|i: int| 0 <= i < reminds.len() ==> (#[trigger] reminds[i]).line >= 1
}

/// A scan in progress: the patterns, made once, and what the files handed
/// over so far have given.
pub struct Scanner {
    matcher: LineMatcher,
    datetime_regex: Pattern,
    placeholder_regex: Pattern,
    datetime_format: String,
    remind_if_no_date: bool,
    sort_by_deadline: bool,
    reminds: Vec<Remind>,
    unparsed: Vec<String>,
    settings: Ghost<ConfigView>,
    files: Ghost<Seq<SourceFile>>,
}

impl Scanner {
    /// The settings that the scan runs under.
    pub closed spec fn settings(&self) -> ConfigView {
        self.settings@
    }

    /// The files handed over so far, in order.
    pub closed spec fn files(&self) -> Seq<SourceFile> {
        self.files@
    }

    /// The invariant of the type: the patterns are those of the settings,
    /// and what is held is what the files so far give.
    pub closed spec fn wf(&self) -> bool {
        &&& self.matcher.source() == meta_regex_of(self.settings@.comment_regex)
        &&& self.datetime_regex.source() == date_regex_of(self.settings@.datetime_format)
        &&& self.placeholder_regex.source() == named_pattern_of(self.settings@.comment_regex)
        &&& self.datetime_format@ == self.settings@.datetime_format
        &&& self.remind_if_no_date == self.settings@.remind_if_no_date
        &&& self.sort_by_deadline == self.settings@.sort_by_deadline
        &&& views(self.reminds@) == found_reminds(self.settings@, self.files@)
        &&& text_views(self.unparsed@) == scanned_unparsed(self.settings@, self.files@)
        &&& lines_from_one(views(self.reminds@))
    }

    /// Makes the three patterns of a scan, in this order: the comment
    /// pattern as the line search takes it, the date pattern, and the
    /// comment pattern with its placeholders named. The first that is
    /// refused is the error.
    pub fn new(config: &Config) -> (res: Result<Scanner, ScanError>)
        ensures
            match res {
                Ok(scanner) => {
                    &&& can_scan(config@)
                    &&& scanner.wf()
                    &&& scanner.settings() == config@
                    &&& scanner.files() == Seq::<SourceFile>::empty()
                },
                Err(ScanError::CommentPattern(_)) => !matcher_valid(
                    meta_regex_of(config@.comment_regex),
                ),
                Err(ScanError::DatePattern(_)) => {
                    &&& matcher_valid(meta_regex_of(config@.comment_regex))
                    &&& !regex_valid(date_regex_of(config@.datetime_format))
                },
                Err(ScanError::PlaceholderPattern(_)) => {
                    &&& matcher_valid(meta_regex_of(config@.comment_regex))
                    &&& regex_valid(date_regex_of(config@.datetime_format))
                    &&& !regex_valid(named_pattern_of(config@.comment_regex))
                },
            },
    {
        let meta_regex = convert_meta_regex(config.comment_regex());
        let matcher = match build_matcher(meta_regex.as_str()) {
            Ok(matcher) => matcher,
            Err(cause) => {
                return Err(ScanError::CommentPattern(cause));
            },
        };
        let datetime_regex = match compile_date_regex(config.datetime_format()) {
            Ok(re) => re,
            Err(cause) => {
                return Err(ScanError::DatePattern(cause));
            },
        };
        let placeholder_regex = match compile_placeholder_regex(config.comment_regex()) {
            Ok(re) => re,
            Err(cause) => {
                return Err(ScanError::PlaceholderPattern(cause));
            },
        };
        let scanner = Scanner {
            matcher,
            datetime_regex,
            placeholder_regex,
            datetime_format: config.datetime_format().to_owned(),
            remind_if_no_date: config.remind_if_no_date(),
            sort_by_deadline: config.sort_by_deadline(),
            reminds: Vec::new(),
            unparsed: Vec::new(),
            settings: Ghost(config@),
            files: Ghost(Seq::empty()),
        };
        proof {
            reveal(Seq::filter);
            assert(views(scanner.reminds@) =~= found_reminds(config@, Seq::<SourceFile>::empty()));
            assert(text_views(scanner.unparsed@) =~= scanned_unparsed(
                config@,
                Seq::<SourceFile>::empty(),
            ));
        }
        Ok(scanner)
    }

    /// Scans one file: each of its lines that the comment pattern matches
    /// gives a reminder, behind those of the files before it.
    pub fn scan(&mut self, file: &SourceFile)
        requires
            old(self).wf(),
        ensures
            final(self).wf(),
            final(self).settings() == old(self).settings(),
            final(self).files() == old(self).files().push(*file),
    {
        let ghost settings = self.settings@;
        let ghost pattern = meta_regex_of(settings.comment_regex);
        let ghost named = named_pattern_of(settings.comment_regex);
        let ghost format = settings.datetime_format;
        let ghost date_pattern = date_regex_of(format);
        let ghost earlier = tree_lines(self.files@, pattern);
        let ghost here = file_lines(*file, pattern);
        let lines = search_lines(&self.matcher, BINARY_MARK, file.content.as_slice());
        proof {
            assert(here.len() == lines@.len());
            assert(earlier + here.take(0) == earlier);
        }
        let mut j: usize = 0;
        while j < lines.len()
            invariant
                j <= lines.len(),
                here == file_lines(*file, pattern),
                here.len() == lines@.len(),
                lines.deep_view() == matching_lines(pattern, BINARY_MARK, file.content@),
                forall|i: int| 0 <= i < lines@.len() ==> (#[trigger] lines@[i]).0 >= 1,
                lines_from_one(views(self.reminds@)),
                self.datetime_regex.source() == date_pattern,
                self.placeholder_regex.source() == named,
                self.datetime_format@ == format,
                self.settings@ == settings,
                self.files@ == old(self).files@,
                self.matcher == old(self).matcher,
                self.remind_if_no_date == old(self).remind_if_no_date,
                self.sort_by_deadline == old(self).sort_by_deadline,
                views(self.reminds@) == reminds_of(
                    earlier + here.take(j as int),
                    format,
                    date_pattern,
                    named,
                ),
                text_views(self.unparsed@) == unparsed_of(
                    earlier + here.take(j as int),
                    format,
                    date_pattern,
                ),
            decreases lines.len() - j,
        {
            let ghost seen = earlier + here.take(j as int);
            let ghost line = here[j as int];
            let ghost before = self.reminds@;
            let ghost failed = self.unparsed@;
            let (remind, failure) = line_processor(
                lines[j].0,
                lines[j].1.as_str(),
                file.path.as_str(),
                self.datetime_format.as_str(),
                &self.datetime_regex,
                &self.placeholder_regex,
            );
            proof {
                assert(lines.deep_view()[j as int] == (lines@[j as int].0, lines@[j as int].1@));
                assert(line == MatchedLine {
                    file: file.path@,
                    number: lines@[j as int].0,
                    text: lines@[j as int].1@,
                });
                assert(earlier + here.take(j + 1) == seen.push(line));
                assert(reminds_of(seen.push(line), format, date_pattern, named) =~= reminds_of(
                    seen,
                    format,
                    date_pattern,
                    named,
                ).push(remind@));
                assert(views(before.push(remind)) =~= views(before).push(remind@));
                assert(lines@[j as int].0 >= 1);
                assert(lines_from_one(views(before).push(remind@)));
                seen.lemma_filter_push(
                    line,
                    |line: MatchedLine| is_unparsed(line, format, date_pattern),
                );
            }
            self.reminds.push(remind);
            match failure {
                Some(text) => {
                    proof {
                        let kept = seen.filter(
                            |line: MatchedLine| is_unparsed(line, format, date_pattern),
                        );
                        assert(kept.push(line).map_values(
                            |line: MatchedLine| date_text_of(date_pattern, line.text),
                        ) =~= unparsed_of(seen, format, date_pattern).push(text@));
                        assert(text_views(failed.push(text)) =~= text_views(failed).push(text@));
                    }
                    self.unparsed.push(text);
                },
                None => {},
            }
            j += 1;
        }
        proof {
            assert(here.take(here.len() as int) == here);
            assert(self.files@.push(*file).drop_last() =~= self.files@);
            assert(self.files@.push(*file).last() == *file);
        }
        self.files = Ghost(self.files@.push(*file));
    }

    /// Ends the scan: the reminders found, without the undated ones unless
    /// they are to be kept, and by date where that is asked for; and the
    /// dates that could not be read.
    pub fn finish(self) -> (found: Reminders)
        requires
            self.wf(),
        ensures
            views(found.reminds@) == scanned_reminds(self.settings(), self.files()),
            text_views(found.unparsed_dates@) == scanned_unparsed(self.settings(), self.files()),
            lines_from_one(views(found.reminds@)),
    {
        let ghost held = views(self.reminds@);
        let reminds = aggregate(self.reminds, self.remind_if_no_date, self.sort_by_deadline);
        proof {
            let reported = views(reminds@);
            assert forall|i: int| 0 <= i < reported.len() implies (#[trigger] reported[i]).line
                >= 1 by {
                lemma_reported_were_found(
                    held,
                    self.remind_if_no_date,
                    self.sort_by_deadline,
                    i,
                );
                let at = choose|at: int| 0 <= at < held.len() && held[at] == reported[i];
                assert(held[at].line >= 1);
            }
        }
        Reminders { reminds, unparsed_dates: self.unparsed }
    }
}

/// Scans `files` for reminders.
///
/// The patterns are made before any file is looked at, and the scan fails
/// where one of them is refused. Else every matching line of every file
/// gives one reminder, and the reminders are dropped and ordered as
/// `config` asks.
pub fn scan_files(config: &Config, files: &Vec<SourceFile>) -> (res: Result<Reminders, ScanError>)
    ensures
        match res {
            Ok(found) => {
                &&& can_scan(config@)
                &&& views(found.reminds@) == scanned_reminds(config@, files@)
                &&& text_views(found.unparsed_dates@) == scanned_unparsed(config@, files@)
                &&& lines_from_one(views(found.reminds@))
            },
            Err(ScanError::CommentPattern(_)) => !matcher_valid(
                meta_regex_of(config@.comment_regex),
            ),
            Err(ScanError::DatePattern(_)) => {
                &&& matcher_valid(meta_regex_of(config@.comment_regex))
                &&& !regex_valid(date_regex_of(config@.datetime_format))
            },
            Err(ScanError::PlaceholderPattern(_)) => {
                &&& matcher_valid(meta_regex_of(config@.comment_regex))
                &&& regex_valid(date_regex_of(config@.datetime_format))
                &&& !regex_valid(named_pattern_of(config@.comment_regex))
            },
        },
{
    let mut scanner = match Scanner::new(config) {
        Ok(scanner) => scanner,
        Err(cause) => {
            return Err(cause);
        },
    };
    let mut i: usize = 0;
    proof {
        assert(files@.take(0) == Seq::<SourceFile>::empty());
    }
    while i < files.len()
        invariant
            i <= files.len(),
            scanner.wf(),
            scanner.settings() == config@,
            scanner.files() == files@.take(i as int),
        decreases files.len() - i,
    {
        scanner.scan(&files[i]);
        proof {
            assert(files@.take(i as int).push(files@[i as int]) == files@.take(i + 1));
        }
        i += 1;
    }
    proof {
        assert(files@.take(files@.len() as int) == files@);
    }
    Ok(scanner.finish())
}

} // verus!
