//! Time, as the `chrono` crate reads and writes it.
//!
//! An instant is held as whole seconds since the Unix epoch, UTC.

use chrono::{DateTime, Utc};
use vstd::prelude::*;

verus! {

/// The layout of a calendar date in a storage key: four digits of the year,
/// two of the month, two of the day.
pub const DATE_FORMAT: &'static str = "%Y%m%d";

/// The instant `secs` seconds after the Unix epoch, written in UTC by `chrono`
/// with the strftime-style format `format`. `None` where `secs` lies outside
/// the years that `chrono` can represent.
pub uninterp spec fn utc_formatted(secs: int, format: Seq<char>) -> Option<Seq<char>>;

/// Trusted: the current time from `chrono::Utc::now`, as the whole seconds
/// that `DateTime::timestamp` gives. Nothing is claimed of the value.
/// `chrono` stops the process where the system clock is set before 1970.
#[verifier::external_body]
pub(crate) fn utc_now() -> (secs: i64) {
    Utc::now().timestamp()
}

/// Trusted: turns `secs` into a `DateTime<Utc>` with
/// `DateTime::from_timestamp` and writes it with `DateTime::format`. The
/// contract only gives that text its name, `utc_formatted`. The format is
/// held to `DATE_FORMAT`, which `chrono` accepts: it would fail on a malformed
/// one.
#[verifier::external_body]
pub(crate) fn format_utc(secs: i64, format: &str) -> (text: Option<String>)
    requires
        format@ == DATE_FORMAT@,
    ensures
        text.deep_view() == utc_formatted(secs as int, format@),
{
    DateTime::<Utc>::from_timestamp(secs, 0).map(|t| t.format(format).to_string())
}

} // verus!
