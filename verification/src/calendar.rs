//! The calendar, as far as the library relies on it.
//!
//! Nothing in this file is proved: both functions hand their arguments to
//! `chrono`, and their contracts record what it returns under a name.

use chrono::{NaiveDate, NaiveDateTime, NaiveTime};
use vstd::prelude::*;

verus! {

#[verifier::external_type_specification]
#[verifier::external_body]
pub struct ExParseError(chrono::ParseError);

/// How many seconds a day has.
pub const SECONDS_PER_DAY: i64 = 86_400;

/// Seconds from 1970-01-01T00:00:00 UTC to the date and time that `text`
/// spells under the strftime `format`; `None` when `text` does not conform.
pub uninterp spec fn datetime_epoch(text: Seq<char>, format: Seq<char>) -> Option<int>;

/// Seconds from 1970-01-01T00:00:00 UTC to midnight of the date that `text`
/// spells under the strftime `format`; `None` when `text` does not conform.
pub uninterp spec fn date_epoch(text: Seq<char>, format: Seq<char>) -> Option<int>;

/// `NaiveDateTime::parse_from_str`, read as UTC through `and_utc` and
/// `timestamp`. Claimed: the outcome depends on the two texts alone.
#[verifier::external_body]
pub(crate) fn datetime_seconds(text: &str, format: &str) -> (res: Result<i64, chrono::ParseError>)
    ensures
        match res {
            Ok(seconds) => datetime_epoch(text@, format@) == Some(seconds as int),
            Err(_) => datetime_epoch(text@, format@) is None,
        },
{
    NaiveDateTime::parse_from_str(text, format).map(|moment| moment.and_utc().timestamp())
}

/// `NaiveDate::parse_from_str`, joined with midnight through `and_time` and
/// read as UTC through `and_utc` and `timestamp`. Claimed: the outcome
/// depends on the two texts alone, and the seconds are those of whole
/// days.
#[verifier::external_body]
pub(crate) fn date_seconds(text: &str, format: &str) -> (res: Result<i64, chrono::ParseError>)
    ensures
        match res {
            Ok(seconds) => date_epoch(text@, format@) == Some(seconds as int),
            Err(_) => date_epoch(text@, format@) is None,
        },
        res matches Ok(seconds) ==> seconds % SECONDS_PER_DAY == 0,
{
    NaiveDate::parse_from_str(text, format).map(
        |day| day.and_time(NaiveTime::default()).and_utc().timestamp(),
    )
}

} // verus!
