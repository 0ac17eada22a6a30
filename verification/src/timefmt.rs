//! Timestamps: the platform reports Unix milliseconds; messages carry whole
//! seconds, and exporters render them as RFC 3339 text.

use vstd::prelude::*;

verus! {

/// The textual form of a Unix timestamp: its RFC 3339 rendering in UTC with
/// whole seconds and the `Z` suffix.
pub uninterp spec fn rfc3339_of(secs: i64) -> Seq<char>;

/// The largest Unix timestamp handed to the formatter: the last second of
/// year 9999, far above any timestamp the platform reports and far below
/// the formatter's own range.
pub const MAX_FORMAT_SECS: i64 = 253402300799;

/// Relies on chrono: `TimeZone::timestamp_opt` on `Utc` builds the instant
/// (in range it returns the single mapping) and `DateTime::to_rfc3339_opts`
/// with whole seconds and `use_z` renders it; the rendering is a function
/// of the timestamp alone.
#[verifier::external_body]
pub(crate) fn format_rfc3339_utc(secs: i64) -> (r: String)
    requires
        0 <= secs <= MAX_FORMAT_SECS,
    ensures
        r@ == rfc3339_of(secs),
{
    match chrono::TimeZone::timestamp_opt(&chrono::Utc, secs, 0) {
        chrono::MappedLocalTime::Single(dt) => dt.to_rfc3339_opts(
            chrono::SecondsFormat::Secs,
            true,
        ),
        _ => String::new(),
    }
}

/// Converts the platform's Unix-millisecond timestamps to whole seconds.
pub fn millis_to_secs(millis: i64) -> (r: i64)
    requires
        millis >= 0,
    ensures
        r == millis as int / 1000,
        0 <= r <= millis,
{
    millis / 1000
}

} // verus!
