//! Dates and times, held as seconds since the Unix epoch, rendered and read
//! back through chrono.
use chrono::NaiveDateTime;
use std::str::FromStr;
use vstd::prelude::*;

verus! {

/// The text that chrono renders with format string `format` for the
/// date and time `secs` seconds after 1970-01-01 00:00:00, or `None` where
/// chrono cannot represent that instant.
pub uninterp spec fn timestamp_text(secs: i64, format: Seq<char>) -> Option<Seq<char>>;

/// The number of seconds after 1970-01-01 00:00:00 of the date and time
/// that chrono reads from `text` in the form `YYYY-MM-DDTHH:MM:SS`, or
/// `None` where chrono rejects `text`.
pub uninterp spec fn parsed_timestamp(text: Seq<char>) -> Option<i64>;

/// The format of the date labels shown next to the due date and the reminder.
pub open spec fn date_label_format() -> Seq<char> {
    "%m/%d/%Y"@
}

/// Renders the instant `secs` seconds after the epoch through chrono's
/// `NaiveDateTime::from_timestamp_opt` and `NaiveDateTime::format`.
/// Claimed: the result is the named value `timestamp_text(secs, format)`,
/// a function of the two arguments alone. The format is held to the date
/// label format, which renders every representable instant; what chrono
/// renders is not stated.
#[verifier::external_body]
#[allow(deprecated)]
pub(crate) fn format_timestamp(secs: i64, format: &str) -> (text: Option<String>)
    requires
        format@ == date_label_format(),
    ensures
        text.deep_view() == timestamp_text(secs, format@),
{
    match NaiveDateTime::from_timestamp_opt(secs, 0) {
        Some(date) => Some(date.format(format).to_string()),
        None => None,
    }
}

/// Reads a date and time through chrono's `FromStr` for `NaiveDateTime`
/// and turns it into seconds after the epoch with `NaiveDateTime::timestamp`.
/// Claimed: the result is the named value `parsed_timestamp(text)`, a
/// function of the text alone; which texts chrono accepts is not stated.
#[verifier::external_body]
#[allow(deprecated)]
pub(crate) fn parse_timestamp(text: &str) -> (secs: Option<i64>)
    ensures
        secs == parsed_timestamp(text@),
{
    match NaiveDateTime::from_str(text) {
        Ok(date) => Some(date.timestamp()),
        Err(_) => None,
    }
}

} // verus!
