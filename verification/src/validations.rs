//! Validation of command arguments before a handler runs: argument count and
//! the `DD.MM.YYYY` date format.

use crate::text::chars_of;
use vstd::prelude::*;

verus! {

/// Checks that `command_args` carries exactly `required_count` arguments.
///
/// A command with a wrong argument count is short-circuited to a translated
/// error message; the returned `Err` holds the translation key of that
/// message.
pub fn validate_argument_count(
    command_args: Option<Vec<String>>,
    required_count: usize,
) -> (r: Result<Vec<String>, String>)
    ensures
        match r {
            Ok(args) => command_args == Some(args) && args@.len() == required_count,
            Err(key) => match command_args {
                None => key@ == "error_missing_arguments"@,
                Some(args) => args@.len() != required_count && key@
                    == "error_insufficient_arguments"@,
            },
        },
{
    match command_args {
        None => Err("error_missing_arguments".to_owned()),
        Some(args) => {
            if args.len() != required_count {
                Err("error_insufficient_arguments".to_owned())
            } else {
                Ok(args)
            }
        },
    }
}

pub open spec fn is_digit(c: char) -> bool {
    '0' <= c && c <= '9'
}

/// The numeric value of a digit character.
pub open spec fn digit_val(c: char) -> int {
    c as int - '0' as int
}

pub open spec fn is_leap_year(y: int) -> bool {
    (y % 4 == 0 && y % 100 != 0) || y % 400 == 0
}

pub open spec fn days_in_month(m: int, y: int) -> int {
    if m == 2 {
        if is_leap_year(y) {
            29
        } else {
            28
        }
    } else if m == 4 || m == 6 || m == 9 || m == 11 {
        30
    } else {
        31
    }
}

/// The day a valid `DD.MM.YYYY` string names.
pub open spec fn date_day(s: Seq<char>) -> int {
    digit_val(s[0]) * 10 + digit_val(s[1])
}

/// The month a valid `DD.MM.YYYY` string names.
pub open spec fn date_month(s: Seq<char>) -> int {
    digit_val(s[3]) * 10 + digit_val(s[4])
}

/// The year a valid `DD.MM.YYYY` string names.
pub open spec fn date_year(s: Seq<char>) -> int {
    digit_val(s[6]) * 1000 + digit_val(s[7]) * 100 + digit_val(s[8]) * 10 + digit_val(s[9])
}

/// A well-formed `DD.MM.YYYY` date: the exact shape, and a day that exists in
/// the named month of the named year.
pub open spec fn valid_date_str(s: Seq<char>) -> bool {
    &&& s.len() == 10
    &&& is_digit(s[0]) && is_digit(s[1]) && s[2] == '.'
    &&& is_digit(s[3]) && is_digit(s[4]) && s[5] == '.'
    &&& is_digit(s[6]) && is_digit(s[7]) && is_digit(s[8]) && is_digit(s[9])
    &&& 1 <= date_month(s) <= 12
    &&& 1 <= date_day(s) <= days_in_month(date_month(s), date_year(s))
}

fn digit_value(c: char) -> (r: Option<u32>)
    ensures
        match r {
            Some(v) => is_digit(c) && v == digit_val(c) && v <= 9,
            None => !is_digit(c),
        },
{
    if '0' <= c && c <= '9' {
        Some(c as u32 - '0' as u32)
    } else {
        None
    }
}

/// Checks that `date_str` is a calendar-valid `DD.MM.YYYY` date.
///
/// An invalid date short-circuits the command to a translated error message;
/// the returned `Err` holds the translation key of that message.
pub fn validate_date_format(date_str: &str) -> (r: Result<(), String>)
    ensures
        match r {
            Ok(()) => valid_date_str(date_str@),
            Err(key) => !valid_date_str(date_str@) && key@ == "error_invalid_date"@,
        },
{
    let s = chars_of(date_str);
    if s.len() != 10 {
        return Err("error_invalid_date".to_owned());
    }
    if !(s[2] == '.' && s[5] == '.') {
        return Err("error_invalid_date".to_owned());
    }
    let d0 = digit_value(s[0]);
    let d1 = digit_value(s[1]);
    let m0 = digit_value(s[3]);
    let m1 = digit_value(s[4]);
    let y0 = digit_value(s[6]);
    let y1 = digit_value(s[7]);
    let y2 = digit_value(s[8]);
    let y3 = digit_value(s[9]);
    match (d0, d1, m0, m1, y0, y1, y2, y3) {
        (Some(d0), Some(d1), Some(m0), Some(m1), Some(y0), Some(y1), Some(y2), Some(y3)) => {
            let day = d0 * 10 + d1;
            let month = m0 * 10 + m1;
            let year = y0 * 1000 + y1 * 100 + y2 * 10 + y3;
            if month < 1 || month > 12 {
                return Err("error_invalid_date".to_owned());
            }
            let max_day: u32 = if month == 2 {
                if (year % 4 == 0 && year % 100 != 0) || year % 400 == 0 {
                    29
                } else {
                    28
                }
            } else if month == 4 || month == 6 || month == 9 || month == 11 {
                30
            } else {
                31
            };
            if day < 1 || day > max_day {
                return Err("error_invalid_date".to_owned());
            }
            Ok(())
        },
        _ => Err("error_invalid_date".to_owned()),
    }
}

} // verus!
