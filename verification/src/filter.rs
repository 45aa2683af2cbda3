use vstd::prelude::*;

use crate::errors::LogError;
use crate::instants::{civil_instant, rfc3339_instant, rfc3339_instant_of};
use crate::pattern::{
    extract_millis,
    extract_timestamp,
    extracted_level,
    find_level,
    has_timestamp_prefix,
    line_instant,
};
use crate::text::{contains_str, contains_sub, str_eq};

verus! {

/// Text predicate: a non-empty filter must occur in the line as a literal
/// substring; an empty filter constrains nothing.
pub open spec fn text_pred(line: Seq<char>, filter: Seq<char>) -> bool {
    filter.len() > 0 ==> contains_sub(line, filter)
}

/// Level predicate: the sentinel `All` matches every line; any other level
/// string matches exactly the lines whose leftmost bracketed severity token
/// names it. A line without a severity token never matches a specific level.
pub open spec fn level_pred(line: Seq<char>, level: Seq<char>) -> bool {
    level == "All"@ || extracted_level(line) == Some(level)
}

/// Range predicate: applied only when both bounds are present. The line's
/// leading timestamp must then denote a valid calendar date-time `t` at
/// UTC+8, with `start <= t < end` (half-open). A line whose timestamp is
/// missing or malformed is dropped, never defaulted.
pub open spec fn range_pred(line: Seq<char>, start: Option<i64>, end: Option<i64>) -> bool {
    match (start, end) {
        (Some(s), Some(e)) => match line_instant(line) {
            Some(t) => s <= t && t < e,
            None => false,
        },
        _ => true,
    }
}

/// A line is kept exactly when all three predicates accept it.
pub open spec fn spec_keep(
    line: Seq<char>,
    filter: Seq<char>,
    level: Seq<char>,
    start: Option<i64>,
    end: Option<i64>,
) -> bool {
    text_pred(line, filter) && level_pred(line, level) && range_pred(line, start, end)
}

/// Decides whether one log line passes the substring filter, the severity
/// level filter and the date-time range filter. Timestamps are modelled as
/// milliseconds since the Unix epoch.
pub fn filter_log(
    line: &str,
    filter: &str,
    level: &str,
    start_date_time: Option<i64>,
    end_date_time: Option<i64>,
) -> (keep: bool)
    ensures
        keep == spec_keep(line@, filter@, level@, start_date_time, end_date_time),
{
    if !filter.is_empty() && !contains_str(line, filter) {
        return false;
    }
    if !str_eq(level, "All") {
        match find_level(line) {
            Some(name) => {
                if !str_eq(name.as_str(), level) {
                    return false;
                }
            },
            None => {
                return false;
            },
        }
    }
    if let (Some(start), Some(end)) = (start_date_time, end_date_time) {
        match extract_timestamp(line) {
            Some(ts) => {
                match civil_instant(ts) {
                    Some(base) => {
                        let t: i64 = match extract_millis(line) {
                            Some(ms) => {
                                if base <= i64::MAX - ms as i64 {
                                    base + ms as i64
                                } else {
                                    return false;
                                }
                            },
                            None => base,
                        };
                        return start <= t && t < end;
                    },
                    None => {
                        return false;
                    },
                }
            },
            None => {
                return false;
            },
        }
    }
    true
}

/// What parsing a date-time bound yields: an empty string is no bound, a
/// valid RFC 3339 string is the instant it denotes, anything else is an
/// input error.
pub open spec fn spec_parse_date_time(s: Seq<char>) -> Result<Option<i64>, LogError> {
    if s.len() == 0 {
        Ok(None)
    } else {
        match rfc3339_instant_of(s) {
            Some(t) => Ok(Some(t)),
            None => Err(LogError::BadInput),
        }
    }
}

/// Parses one date-time bound. An empty string means the bound is absent; a
/// non-empty string must be a valid RFC 3339 timestamp, else the query is
/// rejected before any file is touched.
pub fn parse_date_time(date_time: &str) -> (r: Result<Option<i64>, LogError>)
    ensures
        r == spec_parse_date_time(date_time@),
{
    if date_time.is_empty() {
        Ok(None)
    } else {
        match rfc3339_instant(date_time) {
            Some(t) => Ok(Some(t)),
            None => Err(LogError::BadInput),
        }
    }
}

/// The text predicate stands on its own: a line that does not contain a
/// non-empty filter string is dropped, whatever the level and the bounds say.
pub proof fn lemma_text_pred_independent(
    line: Seq<char>,
    filter: Seq<char>,
    level: Seq<char>,
    start: Option<i64>,
    end: Option<i64>,
)
    requires
        filter.len() > 0,
        !contains_sub(line, filter),
    ensures
        !spec_keep(line, filter, level, start, end),
{
}

/// With both bounds present, the range predicate keeps exactly the lines
/// whose leading timestamp denotes an instant `t` with `start <= t < end`,
/// and drops every line without an extractable timestamp.
pub proof fn lemma_range_pred(line: Seq<char>, start: i64, end: i64)
    requires
        start < end,
    ensures
        range_pred(line, Some(start), Some(end)) <==> (line_instant(line) matches Some(t) && start
            <= t && t < end),
        !has_timestamp_prefix(line) ==> !range_pred(line, Some(start), Some(end)),
{
}

} // verus!
