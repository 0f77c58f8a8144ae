//! The long-poll loop's request parameters and the daily scheduler's
//! arithmetic: seconds until each wall-clock boundary, and the three timer
//! delays armed at startup.

use crate::decimal::{dec_int, i64_to_string, two_digits, push_two_digits};
use crate::text::string_from_chars;
use chrono::{Datelike, Timelike};
use vstd::prelude::*;

verus! {

/// The period of every daily timer.
pub const SECONDS_PER_DAY: u64 = 86400;

/// The safety margin added to the midnight boundary, so the pass runs
/// clearly inside the new day.
pub const MIDNIGHT_BUFFER_SECONDS: u64 = 60;

/// Relies on `chrono::Local::now` and its `Timelike`/`Datelike` accessors:
/// seconds past midnight lie in 0..=86399, the day of month in 1..=31, the
/// month in 1..=12.  The wall clock decides the values, so nothing more is
/// promised of them.
#[verifier::external_body]
pub fn local_now_parts() -> (r: (u32, u32, u32, i32))
    ensures
        r.0 < 86400,
        1 <= r.1 <= 31,
        1 <= r.2 <= 12,
{
    let now = chrono::Local::now();
    let secs = now.time().num_seconds_from_midnight();
    let date = now.date_naive();
    (secs, date.day(), date.month(), date.year())
}

/// Seconds from `now` to the next occurrence of `target`, both given as
/// seconds past midnight; a target at or before `now` falls on the next
/// day.
pub open spec fn seconds_until_spec(now: int, target: int) -> int {
    if now < target {
        target - now
    } else {
        target + 86400 - now
    }
}

/// Seconds until the next occurrence of a wall-clock time of day.
pub fn seconds_until(now_secs: u32, target_secs: u32) -> (r: u64)
    requires
        now_secs < 86400,
        target_secs < 86400,
    ensures
        r == seconds_until_spec(now_secs as int, target_secs as int),
        1 <= r <= 86400,
{
    if now_secs < target_secs {
        (target_secs - now_secs) as u64
    } else {
        target_secs as u64 + 86400 - now_secs as u64
    }
}

/// Seconds until the next time-of-day boundary, read from the local clock.
/// Only the bound can be promised: the clock decides the rest.
pub fn calc_seconds_until(target_hour: u32, target_minute: u32, target_second: u32) -> (r: u64)
    requires
        target_hour < 24,
        target_minute < 60,
        target_second < 60,
    ensures
        1 <= r <= 86400,
{
    let (now_secs, _, _, _) = local_now_parts();
    seconds_until(now_secs, target_hour * 3600 + target_minute * 60 + target_second)
}

/// The initial delay of the midnight timer: the time to the next midnight
/// plus the safety buffer.
pub open spec fn midnight_delay_spec(now: int) -> int {
    86400 - now + 60
}

/// Seconds until the next midnight boundary, buffer included.
pub fn seconds_until_midnight_with_buffer(now_secs: u32) -> (r: u64)
    requires
        now_secs < 86400,
    ensures
        r == midnight_delay_spec(now_secs as int),
        61 <= r <= 86460,
{
    86400 - now_secs as u64 + 60
}

/// The three initial delays the daily scheduler arms, each followed by a
/// 24-hour period: the midnight pass (birthdays and event reminders), the
/// morning greeting at 08:00 and the evening greeting at 22:00.
#[derive(Debug, Clone, Copy, PartialEq, Eq, Structural)]
pub struct SchedulePlan {
    pub midnight_delay: u64,
    pub morning_delay: u64,
    pub evening_delay: u64,
    pub period: u64,
}

/// Arms the daily schedule from the current time of day.
pub fn arm_daily_schedule(now_secs: u32) -> (r: SchedulePlan)
    requires
        now_secs < 86400,
    ensures
        r.midnight_delay == midnight_delay_spec(now_secs as int),
        r.morning_delay == seconds_until_spec(now_secs as int, 8int * 3600),
        r.evening_delay == seconds_until_spec(now_secs as int, 22int * 3600),
        r.period == 86400,
{
    SchedulePlan {
        midnight_delay: seconds_until_midnight_with_buffer(now_secs),
        morning_delay: seconds_until(now_secs, 8 * 3600),
        evening_delay: seconds_until(now_secs, 22 * 3600),
        period: SECONDS_PER_DAY,
    }
}

/// Law: ten minutes before midnight the midnight timer arms with an initial
/// delay bounded by those ten minutes plus the buffer — well under twenty
/// minutes — and its period is a day exactly.
pub proof fn lemma_midnight_arm_close_to_boundary(now: int)
    requires
        now == 23 * 3600 + 50 * 60,
    ensures
        midnight_delay_spec(now) == 660,
        midnight_delay_spec(now) < 1200,
{
}

/// The `DD.MM` rendering of a day and month, the key the birthday pass
/// looks users up by.
pub fn format_day_month(day: u32, month: u32) -> (r: String)
    requires
        day <= 31,
        month <= 12,
    ensures
        r@ == two_digits(day as nat) + seq!['.'] + two_digits(month as nat),
{
    let mut out: Vec<char> = Vec::new();
    push_two_digits(day as u64, &mut out);
    out.push('.');
    push_two_digits(month as u64, &mut out);
    proof {
        assert(out@ =~= two_digits(day as nat) + seq!['.'] + two_digits(month as nat));
    }
    string_from_chars(&out)
}

/// The query parameters of one long poll: the current offset and the
/// server-side timeout.
pub fn poll_params(offset: i64) -> (r: Vec<(String, String)>)
    ensures
        r@.len() == 2,
        r@[0].0@ == "offset"@ && r@[0].1@ == dec_int(offset as int),
        r@[1].0@ == "timeout"@ && r@[1].1@ == "30"@,
{
    let mut params: Vec<(String, String)> = Vec::new();
    params.push(("offset".to_owned(), i64_to_string(offset)));
    params.push(("timeout".to_owned(), "30".to_owned()));
    params
}

} // verus!
