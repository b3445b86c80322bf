//! How a span of time is written out for the chat.

use vstd::prelude::*;
use vstd::string::*;
use crate::text::{decimal, decimal_text};

verus! {

/// The largest number of seconds that a span can hold.
pub const MAX_SECONDS: i64 = 9_223_372_036_854_775;

/// Division that rounds toward zero, by a positive divisor.
pub open spec fn toward_zero(a: int, b: int) -> int {
    if a >= 0 {
        a / b
    } else {
        -((-a) / b)
    }
}

/// Whether a number of seconds fits in a span.
pub open spec fn in_span(seconds: int) -> bool {
    -MAX_SECONDS <= seconds <= MAX_SECONDS
}

/// Calls `chrono::Duration::seconds` and `num_days` on the result. Trusted:
/// the whole days of the span, its seconds divided by 86400 toward zero. The
/// bound keeps out the seconds on which the constructor panics.
#[verifier::external_body]
pub(crate) fn whole_days(seconds: i64) -> (days: i64)
    requires
        in_span(seconds as int),
    ensures
        days == toward_zero(seconds as int, 86_400),
{
    chrono::Duration::seconds(seconds).num_days()
}

/// Calls `chrono::Duration::seconds` and `num_hours` on the result. Trusted:
/// the whole hours of the span, its seconds divided by 3600 toward zero.
#[verifier::external_body]
pub(crate) fn whole_hours(seconds: i64) -> (hours: i64)
    requires
        in_span(seconds as int),
    ensures
        hours == toward_zero(seconds as int, 3_600),
{
    chrono::Duration::seconds(seconds).num_hours()
}

/// Calls `chrono::Duration::seconds` and `num_minutes` on the result.
/// Trusted: the whole minutes of the span, its seconds divided by 60 toward
/// zero.
#[verifier::external_body]
pub(crate) fn whole_minutes(seconds: i64) -> (minutes: i64)
    requires
        in_span(seconds as int),
    ensures
        minutes == toward_zero(seconds as int, 60),
{
    chrono::Duration::seconds(seconds).num_minutes()
}

/// Calls `chrono::Duration::seconds` and `num_seconds` on the result.
/// Trusted: a span made of whole seconds gives them back.
#[verifier::external_body]
pub(crate) fn whole_seconds(seconds: i64) -> (same: i64)
    requires
        in_span(seconds as int),
    ensures
        same == seconds,
{
    chrono::Duration::seconds(seconds).num_seconds()
}

/// `text`, followed by the number and its unit where the part is shown.
pub open spec fn with_part(text: Seq<char>, shown: bool, n: int, unit: Seq<char>) -> Seq<char> {
    if shown {
        text + decimal(n) + unit
    } else {
        text
    }
}

/// A span of `seconds` written out: its days, the hours beyond them, the
/// minutes beyond the hours unless a day is shown, and the seconds beyond the
/// minutes unless an hour is shown. Parts that are not positive are left out.
pub open spec fn duration_text(seconds: int) -> Seq<char> {
    let days = toward_zero(seconds, 86_400);
    let hours = toward_zero(seconds, 3_600);
    let minutes = toward_zero(seconds, 60);
    let a = with_part(Seq::<char>::empty(), days > 0, days, " days "@);
    let b = with_part(a, hours > 0, hours - days * 24, " hours "@);
    let c = with_part(b, minutes > 0 && days <= 0, minutes - hours * 60, " minutes "@);
    with_part(c, seconds > 0 && hours <= 0, seconds - minutes * 60, " seconds"@)
}

/// Appends a number and its unit.
fn push_part(output: &mut String, n: i64, unit: &str)
    ensures
        final(output)@ == old(output)@ + decimal(n as int) + unit@,
{
    let number = decimal_text(n as i128);
    output.append(number.as_str());
    output.append(unit);
}

/// Writes out a span of time given in seconds.
pub fn duration_format(duration: i64) -> (output: String)
    requires
        in_span(duration as int),
    ensures
        output@ == duration_text(duration as int),
{
    let mut output = String::new();
    let days: i64 = whole_days(duration);
    if days > 0 {
        push_part(&mut output, days, " days ");
    }
    let hours: i64 = whole_hours(duration);
    if hours > 0 {
        push_part(&mut output, hours - days * 24, " hours ");
    }
    let minutes: i64 = whole_minutes(duration);
    if minutes > 0 && days <= 0 {
        push_part(&mut output, minutes - hours * 60, " minutes ");
    }
    let seconds: i64 = whole_seconds(duration);
    if seconds > 0 && hours <= 0 {
        push_part(&mut output, seconds - minutes * 60, " seconds");
    }
    output
}

} // verus!
