//! Locale-aware formatting.
//!
//! Date formatting delegates to an outside calendar library: the result
//! of formatting a UTC timestamp is a pure function of the timestamp and
//! the format string, and is given a name here rather than restated.

use crate::locale::types::LocaleConfig;
use std::fmt::Write;
use vstd::prelude::*;

verus! {

/// Number format types.
#[derive(Clone, Copy, Debug, PartialEq, Eq, Structural)]
pub enum NumberFormatType {
    /// Decimal number
    Decimal,
    /// Currency
    Currency,
    /// Percentage
    Percentage,
}

/// What formatting the UTC instant `timestamp_secs` seconds after the
/// epoch with the strftime string `format` yields.
pub uninterp spec fn date_format_text(timestamp_secs: int, format: Seq<char>) -> Seq<char>;

/// Format the UTC instant a number of seconds after the epoch with a
/// strftime format string, according to the locale configuration.
///
/// Relies on chrono's `DateTime::from_timestamp` to build the UTC instant
/// (`None` for out-of-range seconds) and on `DateTime::format` to render
/// it (an error, here `None`, for an invalid format string); for a UTC
/// instant the text depends on the timestamp and format string alone.
#[verifier::external_body]
pub fn format_date(timestamp_secs: i64, format: &str, _config: &LocaleConfig) -> (r: Option<
    String,
>)
    ensures
        r matches Some(s) ==> s@ == date_format_text(timestamp_secs as int, format@),
{
    let date = chrono::DateTime::from_timestamp(timestamp_secs, 0)?;
    let mut out = String::new();
    match write!(out, "{}", date.format(format)) {
        Ok(_) => Some(out),
        Err(_) => None,
    }
}

} // verus!
