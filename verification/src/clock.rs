//! Wall-clock stamps for log lines.

use vstd::prelude::*;
use vstd::string::*;
use crate::text::digit_char;

verus! {

pub open spec fn two_digits(n: int) -> Seq<char> {
    seq![digit_char(n / 10), digit_char(n % 10)]
}

/// `HH:MM:SS` for a number of seconds since midnight.
pub open spec fn clock_spec(secs: int) -> Seq<char> {
    two_digits(secs / 3600) + seq![':'] + two_digits((secs % 3600) / 60) + seq![':'] + two_digits(
        secs % 60,
    )
}

/// Calls chrono's `NaiveTime::from_num_seconds_from_midnight_opt` and
/// `NaiveTime::format` with `%H:%M:%S`. Trusted: for a time of day below
/// 86400 seconds the text is hour, minute and second, each as two decimal
/// digits, separated by colons.
#[verifier::external_body]
fn format_time_of_day(secs: u32) -> (r: String)
    requires
        secs < 86400,
    ensures
        r@ == clock_spec(secs as int),
{
    match chrono::NaiveTime::from_num_seconds_from_midnight_opt(secs, 0) {
        Some(t) => t.format("%H:%M:%S").to_string(),
        None => String::new(),
    }
}

/// The time of day, in UTC, of `now` seconds after the epoch.
pub open spec fn clock_text(now: u64) -> Seq<char> {
    clock_spec((now % 86400) as int)
}

pub fn clock_string(now: u64) -> (r: String)
    ensures
        r@ == clock_text(now),
{
    format_time_of_day((now % 86400) as u32)
}

/// A log line: the stamp in square brackets, a space, the message.
pub open spec fn log_line(now: u64, msg: Seq<char>) -> Seq<char> {
    "["@ + clock_text(now) + "] "@ + msg
}

pub fn make_log_line(now: u64, msg: &str) -> (r: String)
    ensures
        r@ == log_line(now, msg@),
{
    let mut out = String::from_str("[");
    let clock = clock_string(now);
    out.append(clock.as_str());
    out.append("] ");
    out.append(msg);
    out
}

} // verus!
