//! The wall clock, as far as the journal needs it.

use vstd::prelude::*;
use crate::text::{line_text, log_line};

verus! {

/// The pattern after which journal timestamps are written: date, time of
/// day, and milliseconds.
pub open spec fn timestamp_pattern() -> Seq<char> {
    "%Y-%m-%d %H:%M:%S.%3f"@
}

pub open spec fn is_digit(c: char) -> bool {
    '0' <= c <= '9'
}

/// `text` is a year as a timestamp writes it: four digits, or a sign and at
/// least four digits.
pub open spec fn is_year(text: Seq<char>) -> bool {
    if text.len() == 4 {
        forall|i: int| 0 <= i < 4 ==> is_digit(#[trigger] text[i])
    } else {
        &&& text.len() >= 5
        &&& text[0] == '+' || text[0] == '-'
        &&& forall|i: int| 1 <= i < text.len() ==> is_digit(#[trigger] text[i])
    }
}

/// `text` has the digits and the punctuation of "-MM-DD HH:MM:SS.mmm".
pub open spec fn is_time_of_year(text: Seq<char>) -> bool {
    &&& text.len() == 19
    &&& text[0] == '-' && is_digit(text[1]) && is_digit(text[2])
    &&& text[3] == '-' && is_digit(text[4]) && is_digit(text[5])
    &&& text[6] == ' ' && is_digit(text[7]) && is_digit(text[8])
    &&& text[9] == ':' && is_digit(text[10]) && is_digit(text[11])
    &&& text[12] == ':' && is_digit(text[13]) && is_digit(text[14])
    &&& text[15] == '.' && is_digit(text[16]) && is_digit(text[17]) && is_digit(text[18])
}

/// `text` reads "YYYY-MM-DD HH:MM:SS.mmm", the year written as `is_year`
/// says.
pub open spec fn is_timestamp(text: Seq<char>) -> bool {
    &&& text.len() >= 23
    &&& is_year(text.take(text.len() - 19))
    &&& is_time_of_year(text.skip(text.len() - 19))
}

/// Reads the local time with `chrono::Local::now` and writes it out with
/// `chrono::DateTime::format` under `pattern`.
///
/// Which time comes out depends on the clock and on the time zone of the
/// machine, so the contract claims the shape of the text only, as chrono
/// documents the specifiers of the pattern: the year in four digits (signed,
/// and maybe longer, outside 0 to 9999), month, day, hour, minute and second
/// in two digits each, and the milliseconds in three. `format` fails on a
/// pattern that it cannot parse, so only the journal's own pattern is
/// admitted. `Local::now` panics where the system clock stands before 1970.
#[verifier::external_body]
fn local_time_text(pattern: &str) -> (text: String)
    requires
        pattern@ == timestamp_pattern(),
    ensures
        is_timestamp(text@),
{
    chrono::Local::now().format(pattern).to_string()
}

/// The current local time as the journal writes it.
pub fn timestamp() -> (stamp: String)
    ensures
        is_timestamp(stamp@),
{
    local_time_text("%Y-%m-%d %H:%M:%S.%3f")
}

/// A journal line for `message`, stamped with the current local time.
///
/// Returns the timestamp that was taken and the line made from it.
pub fn stamped_line(message: &str) -> (stamped: (String, String))
    ensures
        is_timestamp(stamped.0@),
        stamped.1@ == line_text(stamped.0@, message@),
{
    let taken = timestamp();
    let line = log_line(taken.as_str(), message);
    (taken, line)
}

} // verus!
