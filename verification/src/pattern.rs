use vstd::prelude::*;

use crate::instants::civil_instant_of;

verus! {

/// Character length of the base of the leading timestamp,
/// `YYYY-MM-DD HH:MM:SS`.
pub const TIMESTAMP_BASE_LEN: usize = 19;

/// Character length of the leading timestamp when the optional millisecond
/// group ` mmm` follows the base.
pub const TIMESTAMP_MILLIS_LEN: usize = 23;

pub open spec fn is_digit(c: char) -> bool {
    '0' <= c && c <= '9'
}

pub open spec fn digit_value(c: char) -> int {
    c as int - '0' as int
}

/// The character expected at position `i` of the timestamp base:
/// separators at their fixed places, decimal digits everywhere else.
pub open spec fn timestamp_pos_ok(s: Seq<char>, i: int) -> bool {
    if i == 4 || i == 7 {
        s[i] == '-'
    } else if i == 10 {
        s[i] == ' '
    } else if i == 13 || i == 16 {
        s[i] == ':'
    } else {
        is_digit(s[i])
    }
}

/// The line starts with a timestamp of the shape `YYYY-MM-DD HH:MM:SS`.
pub open spec fn has_timestamp_prefix(s: Seq<char>) -> bool {
    s.len() >= TIMESTAMP_BASE_LEN && forall|i: int|
        0 <= i < TIMESTAMP_BASE_LEN ==> timestamp_pos_ok(s, i)
}

/// The timestamp base is followed by the optional millisecond group: a
/// space and three decimal digits.
pub open spec fn has_millis_suffix(s: Seq<char>) -> bool {
    &&& s.len() >= TIMESTAMP_MILLIS_LEN
    &&& s[19] == ' '
    &&& is_digit(s[20])
    &&& is_digit(s[21])
    &&& is_digit(s[22])
}

/// The value of the three-digit millisecond group.
pub open spec fn millis_value(s: Seq<char>) -> int {
    digit_value(s[20]) * 100 + digit_value(s[21]) * 10 + digit_value(s[22])
}

/// The instant a line's leading timestamp denotes, in milliseconds since
/// the Unix epoch, read at UTC+8: the instant of the base, plus the
/// millisecond group when one follows. `None` when the line does not start
/// with a timestamp, or its base is not a valid calendar date-time.
pub open spec fn line_instant(s: Seq<char>) -> Option<i64> {
    if !has_timestamp_prefix(s) {
        None
    } else {
        match civil_instant_of(s.subrange(0, TIMESTAMP_BASE_LEN as int)) {
            None => None,
            Some(base) => if has_millis_suffix(s) {
                if base + millis_value(s) <= i64::MAX {
                    Some((base + millis_value(s)) as i64)
                } else {
                    None
                }
            } else {
                Some(base)
            },
        }
    }
}

/// The bracketed token `[name]` occurs in `s` at character position `i`.
/// A colon may follow the closing bracket but is not required: both level
/// token variants are accepted.
pub open spec fn level_token_at(s: Seq<char>, i: int, name: Seq<char>) -> bool {
    &&& 0 <= i
    &&& i + name.len() + 2 <= s.len()
    &&& s[i] == '['
    &&& s.subrange(i + 1, i + 1 + name.len()) == name
    &&& s[i + 1 + name.len()] == ']'
}

/// The severity name whose bracketed token occurs at position `i`, if any.
pub open spec fn level_at(s: Seq<char>, i: int) -> Option<Seq<char>> {
    if level_token_at(s, i, "Debug"@) {
        Some("Debug"@)
    } else if level_token_at(s, i, "Info"@) {
        Some("Info"@)
    } else if level_token_at(s, i, "Warning"@) {
        Some("Warning"@)
    } else if level_token_at(s, i, "Error"@) {
        Some("Error"@)
    } else {
        None
    }
}

/// The severity name of the leftmost bracketed token at position `i` or
/// later, if any.
pub open spec fn first_level_from(s: Seq<char>, i: int) -> Option<Seq<char>>
    decreases s.len() - i,
    when i <= s.len()
{
    if i >= s.len() {
        None
    } else if level_at(s, i) is Some {
        level_at(s, i)
    } else {
        first_level_from(s, i + 1)
    }
}

/// The severity name of the leftmost bracketed token in the line, if any.
pub open spec fn extracted_level(s: Seq<char>) -> Option<Seq<char>> {
    first_level_from(s, 0)
}

fn digit_at(line: &str, i: usize) -> (b: bool)
    requires
        i < line@.len(),
    ensures
        b == is_digit(line@[i as int]),
{
    let c = line.get_char(i);
    '0' <= c && c <= '9'
}

/// Whether the line starts with a timestamp base of the fixed shape
/// `YYYY-MM-DD HH:MM:SS`.
pub fn has_timestamp(line: &str) -> (r: bool)
    ensures
        r == has_timestamp_prefix(line@),
{
    let n = line.unicode_len();
    if n < TIMESTAMP_BASE_LEN {
        return false;
    }
    let mut i: usize = 0;
    while i < TIMESTAMP_BASE_LEN
        invariant
            n == line@.len(),
            n >= TIMESTAMP_BASE_LEN,
            i <= TIMESTAMP_BASE_LEN,
            forall|j: int| 0 <= j < i ==> timestamp_pos_ok(line@, j),
        decreases TIMESTAMP_BASE_LEN - i,
    {
        let ok: bool = if i == 4 || i == 7 {
            line.get_char(i) == '-'
        } else if i == 10 {
            line.get_char(i) == ' '
        } else if i == 13 || i == 16 {
            line.get_char(i) == ':'
        } else {
            digit_at(line, i)
        };
        if !ok {
            assert(!timestamp_pos_ok(line@, i as int));
            return false;
        }
        i += 1;
    }
    true
}

/// The base of the line's leading timestamp, when the line starts with one.
pub fn extract_timestamp<'a>(line: &'a str) -> (r: Option<&'a str>)
    ensures
        match r {
            Some(ts) => has_timestamp_prefix(line@) && ts@ == line@.subrange(
                0,
                TIMESTAMP_BASE_LEN as int,
            ),
            None => !has_timestamp_prefix(line@),
        },
{
    if has_timestamp(line) {
        Some(line.substring_char(0, TIMESTAMP_BASE_LEN))
    } else {
        None
    }
}

/// The value of the line's millisecond group, when the optional ` mmm`
/// follows the timestamp base.
pub fn extract_millis(line: &str) -> (r: Option<u16>)
    ensures
        match r {
            Some(ms) => has_millis_suffix(line@) && ms == millis_value(line@),
            None => !has_millis_suffix(line@),
        },
{
    let n = line.unicode_len();
    if n < TIMESTAMP_MILLIS_LEN {
        return None;
    }
    if line.get_char(19) != ' ' {
        return None;
    }
    if !digit_at(line, 20) || !digit_at(line, 21) || !digit_at(line, 22) {
        return None;
    }
    let d0 = line.get_char(20) as u16 - 48;
    let d1 = line.get_char(21) as u16 - 48;
    let d2 = line.get_char(22) as u16 - 48;
    Some(d0 * 100 + d1 * 10 + d2)
}

/// The bracketed token `[name]` occurs in `line` at character position `i`.
fn token_at(line: &str, name: &str, i: usize, line_len: usize) -> (b: bool)
    requires
        line_len == line@.len(),
        i < line_len,
    ensures
        b == level_token_at(line@, i as int, name@),
{
    let name_len = name.unicode_len();
    if line_len - i < 2 || line_len - i - 2 < name_len {
        return false;
    }
    if line.get_char(i) != '[' {
        return false;
    }
    let mut j: usize = 0;
    while j < name_len
        invariant
            line_len == line@.len(),
            name_len == name@.len(),
            i < line_len,
            i + name_len + 2 <= line_len,
            j <= name_len,
            line@[i as int] == '[',
            forall|k: int| 0 <= k < j ==> line@[i + 1 + k] == name@[k],
        decreases name_len - j,
    {
        if line.get_char(i + 1 + j) != name.get_char(j) {
            assert(line@.subrange(i + 1, i + 1 + name@.len())[j as int] != name@[j as int]);
            return false;
        }
        j += 1;
    }
    assert(line@.subrange(i + 1, i + 1 + name@.len()) =~= name@);
    line.get_char(i + 1 + name_len) == ']'
}

/// The severity name of the leftmost bracketed token in the line:
/// `[Debug]`, `[Info]`, `[Warning]` or `[Error]`, with or without a
/// trailing colon.
pub fn find_level(line: &str) -> (r: Option<String>)
    ensures
        match r {
            Some(name) => extracted_level(line@) == Some(name@),
            None => extracted_level(line@) is None,
        },
{
    let n = line.unicode_len();
    let mut i: usize = 0;
    while i < n
        invariant
            n == line@.len(),
            i <= n,
            first_level_from(line@, 0) == first_level_from(line@, i as int),
        decreases n - i,
    {
        if token_at(line, "Debug", i, n) {
            return Some("Debug".to_owned());
        }
        if token_at(line, "Info", i, n) {
            return Some("Info".to_owned());
        }
        if token_at(line, "Warning", i, n) {
            return Some("Warning".to_owned());
        }
        if token_at(line, "Error", i, n) {
            return Some("Error".to_owned());
        }
        assert(level_at(line@, i as int) is None);
        i += 1;
    }
    None
}

} // verus!
