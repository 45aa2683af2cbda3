use vstd::prelude::*;

use chrono::TimeZone;

verus! {

/// The instant (milliseconds since the Unix epoch) denoted by an RFC 3339
/// timestamp string, or `None` when the string is not a valid RFC 3339
/// timestamp. The instant is a function of the characters alone.
pub uninterp spec fn rfc3339_instant_of(s: Seq<char>) -> Option<i64>;

/// The instant (milliseconds since the Unix epoch) denoted by a civil
/// timestamp string of the shape `YYYY-MM-DD HH:MM:SS`, read at the
/// fixed UTC+8 offset, or `None` when the string does not denote a valid
/// calendar date-time in that shape. The instant is a function of the
/// characters alone.
pub uninterp spec fn civil_instant_of(s: Seq<char>) -> Option<i64>;

/// Relies on chrono's `DateTime::parse_from_rfc3339` and
/// `DateTime::timestamp_millis`: parsing an RFC 3339 string and turning the
/// parsed instant into epoch milliseconds depend on the characters alone.
#[verifier::external_body]
pub(crate) fn rfc3339_instant(s: &str) -> (r: Option<i64>)
    ensures
        r == rfc3339_instant_of(s@),
{
    match chrono::DateTime::parse_from_rfc3339(s) {
        Ok(dt) => Some(dt.timestamp_millis()),
        Err(_) => None,
    }
}

/// Relies on chrono's `NaiveDateTime::parse_from_str` with the fixed pattern
/// `%Y-%m-%d %H:%M:%S`, `FixedOffset::east_opt` (UTC+8, a valid offset,
/// so the `unwrap` cannot fail), `TimeZone::from_local_datetime` (total for a
/// fixed offset) and `DateTime::timestamp_millis`: all depend on the
/// characters alone.
#[verifier::external_body]
pub(crate) fn civil_instant(s: &str) -> (r: Option<i64>)
    ensures
        r == civil_instant_of(s@),
{
    let offset = chrono::FixedOffset::east_opt(8 * 3600).unwrap();
    match chrono::NaiveDateTime::parse_from_str(s, "%Y-%m-%d %H:%M:%S") {
        Ok(dt) => match offset.from_local_datetime(&dt).single() {
            Some(t) => Some(t.timestamp_millis()),
            None => None,
        },
        Err(_) => None,
    }
}

} // verus!
