//! Date/time handling through the `chrono` crate: parsing a date/time text
//! against a `strftime`-style format, and reading the clock.

use vstd::prelude::*;

verus! {

/// What `chrono`'s `DateTime::parse_from_str` yields for a text and a format:
/// the parsed instant as epoch seconds, or the parse error's rendering. The
/// outcome is a function of the two strings alone.
pub uninterp spec fn datetime_parse_of(s: Seq<char>, fmt: Seq<char>) -> Result<i64, Seq<char>>;

/// Relies on chrono's `DateTime::<FixedOffset>::parse_from_str` and
/// `DateTime::timestamp`: parsing a date/time text against a format, and the
/// message of a failed parse, depend on the text and the format alone.
#[verifier::external_body]
pub fn parse_datetime_epoch(s: &str, fmt: &str) -> (r: Result<i64, String>)
    ensures
        match r {
            Ok(t) => datetime_parse_of(s@, fmt@) == Ok::<i64, Seq<char>>(t),
            Err(e) => datetime_parse_of(s@, fmt@) == Err::<i64, Seq<char>>(e@),
        },
{
    match chrono::DateTime::parse_from_str(s, fmt) {
        Ok(dt) => Ok(dt.timestamp()),
        Err(e) => Err(e.to_string()),
    }
}

/// Relies on chrono's `Utc::now` and `DateTime::timestamp` for the current
/// time as epoch seconds. Nothing is promised of the value: it depends on
/// the clock.
#[verifier::external_body]
pub fn now_epoch() -> (r: i64) {
    chrono::Utc::now().timestamp()
}

} // verus!
