//! The three computations that this library leaves to other code: reading an
//! identifier, reading a time, and lowering the case of a name. Each result
//! has a name here; nothing in this crate says what it is on a given text.

use vstd::prelude::*;
use crate::model::Timestamp;

verus! {

/// The 128 bits of the identifier that `uuid::Uuid::parse_str` reads from a
/// text, or `None` where it reads none.
pub uninterp spec fn identifier_of(text: Seq<char>) -> Option<u128>;

/// The seconds since 1970 and the nanoseconds of the time that chrono's
/// `FromStr` for `DateTime<Utc>` reads from a text, or `None` where it reads
/// none.
pub uninterp spec fn instant_of(text: Seq<char>) -> Option<(i64, u32)>;

/// The text that `str::to_lowercase` gives for a text.
pub uninterp spec fn lowercase_of(text: Seq<char>) -> Seq<char>;

/// The time that a text stands for, if it stands for one.
pub open spec fn timestamp_of(text: Seq<char>) -> Option<Timestamp> {
    match instant_of(text) {
        Some((seconds, nanos)) => Some(Timestamp { seconds, nanos }),
        None => None,
    }
}

/// Calls `uuid::Uuid::parse_str` and returns the identifier as the integer
/// that `Uuid::as_u128` gives. Believed, not proved: the parser looks at the
/// bytes of the text and at nothing else, so one text always gives one result.
#[verifier::external_body]
pub(crate) fn parse_identifier(text: &str) -> (parsed: Option<u128>)
    ensures
        parsed == identifier_of(text@),
{
    match uuid::Uuid::parse_str(text) {
        Ok(id) => Some(id.as_u128()),
        Err(_) => None,
    }
}

/// Calls `str::parse::<chrono::DateTime<chrono::Utc>>` and returns the time as
/// what `DateTime::timestamp` and `DateTime::timestamp_subsec_nanos` give.
/// Believed, not proved: the parser reads a date, a time and an offset from
/// the text and shifts them to UTC, so one text always gives one result.
#[verifier::external_body]
fn parse_instant(text: &str) -> (parsed: Option<(i64, u32)>)
    ensures
        parsed == instant_of(text@),
{
    match text.parse::<chrono::DateTime<chrono::Utc>>() {
        Ok(time) => Some((time.timestamp(), time.timestamp_subsec_nanos())),
        Err(_) => None,
    }
}

/// Reads a time from a text.
pub(crate) fn parse_timestamp(text: &str) -> (parsed: Option<Timestamp>)
    ensures
        parsed == timestamp_of(text@),
{
    match parse_instant(text) {
        Some((seconds, nanos)) => Some(Timestamp { seconds, nanos }),
        None => None,
    }
}

/// Calls `str::to_lowercase`. Believed, not proved: the result follows the
/// Unicode tables alone, not a locale.
#[verifier::external_body]
pub(crate) fn lowercase(text: &str) -> (lowered: String)
    ensures
        lowered@ == lowercase_of(text@),
{
    text.to_lowercase()
}

} // verus!
