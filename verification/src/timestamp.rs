//! Local date and time as written in the log and in reports:
//! `YYYY-MM-DD hh:mm:ss`, rendered by chrono.

use vstd::prelude::*;
use crate::session::log_line;
use crate::text::{decimal, repeat_char};

verus! {

/// A local date and time, field by field.
#[derive(Clone, Debug, PartialEq, Eq)]
pub struct LocalTime {
    pub year: i32,
    pub month: u32,
    pub day: u32,
    pub hour: u32,
    pub minute: u32,
    pub second: u32,
}

/// Leap years of the proleptic Gregorian calendar.
pub open spec fn is_leap_year(y: int) -> bool {
    y % 4 == 0 && (y % 100 != 0 || y % 400 == 0)
}

/// Number of days in month `m` of year `y`.
pub open spec fn days_in_month(y: int, m: int) -> int {
    if m == 2 {
        if is_leap_year(y) {
            29
        } else {
            28
        }
    } else if m == 4 || m == 6 || m == 9 || m == 11 {
        30
    } else {
        31
    }
}

/// A date and time that exists, within the years chrono represents
/// (-262143 to 262142), with no leap second.
pub open spec fn is_valid_time(t: LocalTime) -> bool {
    &&& -262143 <= t.year <= 262142
    &&& 1 <= t.month <= 12
    &&& 1 <= t.day <= days_in_month(t.year as int, t.month as int)
    &&& t.hour < 24
    &&& t.minute < 60
    &&& t.second < 60
}

/// `digits` with zeros in front up to `w` characters.
pub open spec fn zero_pad(digits: Seq<char>, w: nat) -> Seq<char> {
    if digits.len() < w {
        repeat_char('0', (w - digits.len()) as nat) + digits
    } else {
        digits
    }
}

/// `%Y`: the year on at least four digits, with a sign when it lies outside
/// 0..=9999.
pub open spec fn year_text(y: int) -> Seq<char> {
    if 0 <= y <= 9999 {
        zero_pad(decimal(y as nat), 4)
    } else if y > 9999 {
        "+"@ + decimal(y as nat)
    } else {
        "-"@ + zero_pad(decimal((-y) as nat), 4)
    }
}

/// `%Y-%m-%d %H:%M:%S`.
pub open spec fn timestamp_text(t: LocalTime) -> Seq<char> {
    year_text(t.year as int) + "-"@ + zero_pad(decimal(t.month as nat), 2) + "-"@ + zero_pad(
        decimal(t.day as nat),
        2,
    ) + " "@ + zero_pad(decimal(t.hour as nat), 2) + ":"@ + zero_pad(decimal(t.minute as nat), 2)
        + ":"@ + zero_pad(decimal(t.second as nat), 2)
}

/// `NaiveDate::from_ymd_opt`, `NaiveDate::and_hms_opt` and
/// `NaiveDateTime::format("%Y-%m-%d %H:%M:%S")` of chrono. The contract
/// claims that a date-time is built exactly when the fields form a valid one
/// (chrono's documented range and calendar), and that the text is then the
/// zero-padded fields that chrono documents for `%Y`, `%m`, `%d`, `%H`,
/// `%M` and `%S`.
#[verifier::external_body]
fn chrono_timestamp(t: &LocalTime) -> (r: Option<String>)
    ensures
        r is Some <==> is_valid_time(*t),
        r matches Some(s) ==> s@ == timestamp_text(*t),
{
    match chrono::NaiveDate::from_ymd_opt(t.year, t.month, t.day) {
        Some(date) => match date.and_hms_opt(t.hour, t.minute, t.second) {
            Some(dt) => Some(dt.format("%Y-%m-%d %H:%M:%S").to_string()),
            None => None,
        },
        None => None,
    }
}

/// `YYYY-MM-DD hh:mm:ss` for a valid date and time; `None` for one that does
/// not exist.
pub fn format_timestamp(t: &LocalTime) -> (r: Option<String>)
    ensures
        r is Some <==> is_valid_time(*t),
        r matches Some(s) ==> s@ == timestamp_text(*t),
{
    chrono_timestamp(t)
}

/// The log file line for `message` written at time `t`:
/// `[YYYY-MM-DD hh:mm:ss] <message>` and a newline; `None` for a time that
/// does not exist.
pub fn stamped_log_line(t: &LocalTime, message: &str) -> (r: Option<String>)
    ensures
        r is Some <==> is_valid_time(*t),
        r matches Some(s) ==> s@ == "["@ + timestamp_text(*t) + "] "@ + message@ + "\n"@,
{
    match format_timestamp(t) {
        Some(ts) => Some(log_line(ts.as_str(), message)),
        None => None,
    }
}

} // verus!
