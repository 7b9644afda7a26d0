//! Validation: which of the required formats a reminder's message lacks.

use crate::config::builder::ValidateItem;
use crate::error::ConfigError;
use crate::pattern::{compile, has_match, regex_find, regex_valid, Pattern};
use crate::remind::meta::{convert_meta_regex, meta_regex_of};
use crate::remind::{date_regex_of, datetime_format_to_regex, views, Remind, RemindView};
use crate::text_map::{distinct_keys, lemma_model_domain, TextMap};
use vstd::prelude::*;

verus! {

/// A reminder that lacks some of the required formats.
#[derive(Debug)]
pub struct InvalidRemind {
    pub remind: Remind,
    /// The required formats that the message does not show, by name.
    pub unmatched: TextMap<ValidateItem>,
}

/// The pattern that a required format stands for: its date directives as
/// digit counts, its placeholders as groups.
pub open spec fn validate_pattern_of(format: Seq<char>) -> Seq<char> {
    meta_regex_of(date_regex_of(format))
}

/// Whether every required format gives a pattern that the engine accepts.
pub open spec fn formats_valid(entries: Seq<(String, ValidateItem)>) -> bool {
    forall|k: int|
        0 <= k < entries.len() ==> regex_valid(
            validate_pattern_of((#[trigger] entries[k]).1.format@),
        )
}

/// The required formats that `message` does not show.
pub open spec fn lacks(message: Seq<char>) -> spec_fn((String, ValidateItem)) -> bool {
    |entry: (String, ValidateItem)|
        regex_find(validate_pattern_of(entry.1.format@), message) is None
}

/// The reminders that lack one of the required formats.
pub open spec fn is_invalid(entries: Seq<(String, ValidateItem)>) -> spec_fn(RemindView) -> bool {
    |remind: RemindView| entries.filter(lacks(remind.message)).len() > 0
}

/// The reminders that `invalid` reports.
pub open spec fn reported(invalid: Seq<InvalidRemind>) -> Seq<Remind> {
    invalid.map_values(|found: InvalidRemind| found.remind)
}

/// Turns a required format into its pattern.
pub fn validate_pattern(format: &str) -> (pattern: String)
    ensures
        pattern@ == validate_pattern_of(format@),
{
    let dated = datetime_format_to_regex(format);
    convert_meta_regex(dated.as_str())
}

/// Compiles the pattern of each required format, in order.
fn compile_formats(validates: &TextMap<ValidateItem>) -> (res: Result<Vec<Pattern>, ConfigError>)
    ensures
        match res {
            Ok(compiled) => {
                &&& formats_valid(validates.entries())
                &&& compiled@.len() == validates.entries().len()
                &&& forall|k: int|
                    0 <= k < compiled@.len() ==> (#[trigger] compiled@[k]).source()
                        == validate_pattern_of(validates.entries()[k].1.format@)
            },
            Err(ConfigError::InvalidValidateFormat { name, cause }) => exists|k: int|
                0 <= k < validates.entries().len() && name@ == (
                #[trigger] validates.entries()[k]).0@ && !regex_valid(
                    validate_pattern_of(validates.entries()[k].1.format@),
                ) && forall|j: int|
                    0 <= j < k ==> regex_valid(
                        validate_pattern_of((#[trigger] validates.entries()[j]).1.format@),
                    ),
            Err(_) => false,
        },
{
    let mut compiled: Vec<Pattern> = Vec::new();
    let mut k: usize = 0;
    while k < validates.len()
        invariant
            k <= validates.entries().len(),
            compiled@.len() == k,
            forall|j: int|
                0 <= j < k ==> regex_valid(
                    validate_pattern_of((#[trigger] validates.entries()[j]).1.format@),
                ),
            forall|j: int|
                0 <= j < k ==> (#[trigger] compiled@[j]).source() == validate_pattern_of(
                    validates.entries()[j].1.format@,
                ),
        decreases validates.entries().len() - k,
    {
        let pattern = validate_pattern(validates.value_at(k).format.as_str());
        match compile(pattern.as_str()) {
            Ok(re) => {
                compiled.push(re);
            },
            Err(cause) => {
                let name = validates.key_at(k).clone();
                assert(name@ == validates.entries()[k as int].0@);
                return Err(ConfigError::InvalidValidateFormat { name, cause });
            },
        }
        k += 1;
    }
    Ok(compiled)
}

/// Whether every required format gives a pattern that the engine accepts;
/// the first that is refused is the error. A caller that is about to scan
/// learns here, before it does, whether the validation can be made.
pub fn check_formats(validates: &TextMap<ValidateItem>) -> (res: Result<(), ConfigError>)
    ensures
        res is Ok <==> formats_valid(validates.entries()),
        match res {
            Ok(_) => true,
            Err(ConfigError::InvalidValidateFormat { name, cause }) => exists|k: int|
                0 <= k < validates.entries().len() && name@ == (
                #[trigger] validates.entries()[k]).0@ && !regex_valid(
                    validate_pattern_of(validates.entries()[k].1.format@),
                ) && forall|j: int|
                    0 <= j < k ==> regex_valid(
                        validate_pattern_of((#[trigger] validates.entries()[j]).1.format@),
                    ),
            Err(_) => false,
        },
{
    match compile_formats(validates) {
        Ok(_) => Ok(()),
        Err(cause) => Err(cause),
    }
}

/// The required formats that `message` lacks, in the order of `validates`.
fn unmatched_formats(
    message: &str,
    validates: &TextMap<ValidateItem>,
    compiled: &Vec<Pattern>,
) -> (unmatched: TextMap<ValidateItem>)
    requires
        validates.wf(),
        compiled@.len() == validates.entries().len(),
        forall|k: int|
            0 <= k < compiled@.len() ==> (#[trigger] compiled@[k]).source()
                == validate_pattern_of(validates.entries()[k].1.format@),
    ensures
        unmatched.wf(),
        unmatched.entries() == validates.entries().filter(lacks(message@)),
{
    let mut unmatched: TextMap<ValidateItem> = TextMap::new();
    let ghost entries = validates.entries();
    let mut k: usize = 0;
    proof {
        reveal(Seq::filter);
        assert(entries.take(0).filter(lacks(message@)) =~= Seq::<(String, ValidateItem)>::empty());
    }
    while k < validates.len()
        invariant
            k <= entries.len(),
            entries == validates.entries(),
            distinct_keys(entries),
            compiled@.len() == entries.len(),
            forall|j: int|
                0 <= j < compiled@.len() ==> (#[trigger] compiled@[j]).source()
                    == validate_pattern_of(entries[j].1.format@),
            unmatched.wf(),
            unmatched.entries() == entries.take(k as int).filter(lacks(message@)),
        decreases entries.len() - k,
    {
        let ghost seen = entries.take(k as int);
        proof {
            assert(entries.take(k + 1) == seen.push(entries[k as int]));
            seen.lemma_filter_push(entries[k as int], lacks(message@));
        }
        if !has_match(&compiled[k], message) {
            let name = validates.key_at(k).clone();
            let item = validates.value_at(k).clone();
            proof {
                let kept = seen.filter(lacks(message@));
                lemma_model_domain(kept, name@);
                if exists|i: int| 0 <= i < kept.len() && (#[trigger] kept[i]).0@ == name@ {
                    let i = choose|i: int| 0 <= i < kept.len() && (#[trigger] kept[i]).0@ == name@;
                    assert(kept.contains(kept[i]));
                    seen.lemma_filter_contains_rev(lacks(message@), kept[i]);
                    let at = choose|at: int| 0 <= at < seen.len() && seen[at] == kept[i];
                    assert(entries[at].0@ == entries[k as int].0@);
                }
                assert((name, item) == entries[k as int]);
            }
            unmatched.insert(name, item);
        }
        k += 1;
    }
    proof {
        assert(entries.take(entries.len() as int) == entries);
    }
    unmatched
}

/// Holds every reminder to every required format.
///
/// The formats are compiled first, and the first that the engine refuses
/// ends the validation. Else each reminder is reported, in the order of
/// `reminds`, that lacks one of the formats, with the formats it lacks.
pub fn validate(reminds: Vec<Remind>, validates: &TextMap<ValidateItem>) -> (res: Result<
    Vec<InvalidRemind>,
    ConfigError,
>)
    requires
        validates.wf(),
    ensures
        match res {
            Ok(invalid) => {
                &&& formats_valid(validates.entries())
                &&& views(reported(invalid@)) == views(reminds@).filter(
                    is_invalid(validates.entries()),
                )
                &&& forall|i: int|
                    0 <= i < invalid@.len() ==> (#[trigger] invalid@[i]).unmatched.wf()
                        && invalid@[i].unmatched.entries() == validates.entries().filter(
                        lacks(invalid@[i].remind@.message),
                    )
            },
            Err(ConfigError::InvalidValidateFormat { name, cause }) => exists|k: int|
                0 <= k < validates.entries().len() && name@ == (
                #[trigger] validates.entries()[k]).0@ && !regex_valid(
                    validate_pattern_of(validates.entries()[k].1.format@),
                ) && forall|j: int|
                    0 <= j < k ==> regex_valid(
                        validate_pattern_of((#[trigger] validates.entries()[j]).1.format@),
                    ),
            Err(_) => false,
        },
{
    let compiled = match compile_formats(validates) {
        Ok(compiled) => compiled,
        Err(cause) => {
            return Err(cause);
        },
    };
    let mut invalid: Vec<InvalidRemind> = Vec::new();
    let ghost all = reminds@;
    let ghost entries = validates.entries();
    proof {
        reveal(Seq::filter);
        assert(views(all.take(0)) =~= Seq::<RemindView>::empty());
        assert(views(reported(invalid@)) =~= Seq::<RemindView>::empty());
    }
    for remind in it: reminds
        invariant
            it.seq() == all,
            entries == validates.entries(),
            validates.wf(),
            compiled@.len() == entries.len(),
            forall|k: int|
                0 <= k < compiled@.len() ==> (#[trigger] compiled@[k]).source()
                    == validate_pattern_of(entries[k].1.format@),
            views(reported(invalid@)) == views(all.take(it.index() as int)).filter(
                is_invalid(entries),
            ),
            forall|i: int|
                0 <= i < invalid@.len() ==> (#[trigger] invalid@[i]).unmatched.wf()
                    && invalid@[i].unmatched.entries() == entries.filter(
                    lacks(invalid@[i].remind@.message),
                ),
    {
        let ghost seen = all.take(it.index() as int);
        let ghost before = invalid@;
        let unmatched = unmatched_formats(remind.message.as_str(), validates, &compiled);
        proof {
            assert(all.take(it.index() + 1) == seen.push(remind));
            assert(views(seen.push(remind)) =~= views(seen).push(remind@));
            views(seen).lemma_filter_push(remind@, is_invalid(entries));
        }
        if !unmatched.is_empty() {
            let found = InvalidRemind { remind, unmatched };
            proof {
                assert(views(reported(before.push(found))) =~= views(reported(before)).push(
                    found.remind@,
                ));
            }
            invalid.push(found);
        }
    }
    proof {
        assert(all.take(all.len() as int) == all);
    }
    Ok(invalid)
}

} // verus!
