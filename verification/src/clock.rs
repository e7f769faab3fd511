//! Timestamps as text, by `chrono`.

use std::fmt::Write;
use vstd::prelude::*;

verus! {

/// The text that `chrono` gives for the instant `secs` seconds and `nanos`
/// nanoseconds after the Unix epoch, seen in UTC, under the time format
/// `format`.
pub uninterp spec fn utc_time_text(secs: int, nanos: int, format: Seq<char>) -> Seq<char>;

/// The text that `chrono` gives for the same instant seen in the zone that
/// lies `offset` seconds east of UTC.
pub uninterp spec fn zoned_time_text(secs: int, nanos: int, offset: int, format: Seq<char>) -> Seq<
    char,
>;

/// `chrono::DateTime::<Utc>::format`, displayed. The text depends on the
/// instant and the format alone. It is empty where `chrono` cannot represent
/// the instant (`DateTime::from_timestamp` gives `None`) or rejects the
/// format when displaying.
#[verifier::external_body]
pub(crate) fn format_utc(secs: i64, nanos: u32, format: &str) -> (out: String)
    ensures
        out@ == utc_time_text(secs as int, nanos as int, format@),
{
    let mut out = String::new();
    if let Some(t) = chrono::DateTime::from_timestamp(secs, nanos) {
        let _ = write!(out, "{}", t.format(format));
    }
    out
}

/// `chrono::DateTime::<FixedOffset>::format`, displayed. The text depends on
/// the instant, the offset and the format alone. It is empty where `chrono`
/// cannot represent the instant or the offset (`FixedOffset::east_opt` gives
/// `None` outside of one day either way) or rejects the format when
/// displaying.
#[verifier::external_body]
pub(crate) fn format_zoned(secs: i64, nanos: u32, offset: i32, format: &str) -> (out: String)
    ensures
        out@ == zoned_time_text(secs as int, nanos as int, offset as int, format@),
{
    let mut out = String::new();
    let instant = chrono::DateTime::from_timestamp(secs, nanos);
    if let (Some(t), Some(zone)) = (instant, chrono::FixedOffset::east_opt(offset)) {
        let _ = write!(out, "{}", t.with_timezone(&zone).format(format));
    }
    out
}

} // verus!
