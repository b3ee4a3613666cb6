//! Timestamps: microseconds since the Unix epoch, and their text form.

use vstd::prelude::*;
use chrono::{DateTime, Utc};
use std::str::FromStr;
use surrealdb_types::Datetime;

verus! {

/// The text that a timestamp is written as (RFC 3339, in UTC, with a `Z`),
/// or `None` where `micros` lies outside the range of dates that can be
/// written.
pub uninterp spec fn datetime_text(micros: i64) -> Option<Seq<char>>;

/// The timestamp that `text` denotes, or `None` where `text` is no datetime.
pub uninterp spec fn datetime_micros(text: Seq<char>) -> Option<i64>;

/// `Utc::now` and `DateTime::timestamp_micros`: the wall clock, of which
/// nothing can be promised.
#[verifier::external_body]
pub(crate) fn now_micros() -> (micros: i64) {
    Utc::now().timestamp_micros()
}

/// `DateTime::from_timestamp_micros`, then the `Display` form of a
/// `surrealdb_types::Datetime`: the text is a function of `micros` alone.
#[verifier::external_body]
pub(crate) fn format_datetime(micros: i64) -> (text: Option<String>)
    ensures
        text matches Some(t) ==> datetime_text(micros) == Some(t@),
        text is None ==> datetime_text(micros) is None,
{
    DateTime::<Utc>::from_timestamp_micros(micros).map(|at| Datetime::from(at).to_string())
}

/// `Datetime::from_str`, then `DateTime::timestamp_micros`: the timestamp is
/// a function of `text` alone, and there is none where the parser refuses
/// `text`.
#[verifier::external_body]
pub(crate) fn parse_datetime(text: &str) -> (micros: Option<i64>)
    ensures
        micros == datetime_micros(text@),
{
    Datetime::from_str(text).ok().map(|at| at.timestamp_micros())
}

} // verus!
