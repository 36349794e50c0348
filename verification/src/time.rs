use vstd::prelude::*;
use std::fmt::Write;

verus! {

/// The earliest instant the clock can report, in milliseconds since the unix epoch
/// (January 1st of the year -262143).
pub open spec fn earliest_millis() -> int {
    -8_334_601_315_200_000
}

/// The latest instant the clock can report, in milliseconds since the unix epoch (the last
/// millisecond of the year 262142).
pub open spec fn latest_millis() -> int {
    8_210_266_876_799_999
}

/// An instant that a date-time value can hold.
pub open spec fn timestamp_in_range(millis: i64) -> bool {
    earliest_millis() <= millis <= latest_millis()
}

/// The text chrono writes of an instant, read in UTC, with a strftime pattern; the empty text
/// for an instant out of range or a pattern chrono cannot write.
pub uninterp spec fn utc_text(millis: i64, pattern: Seq<char>) -> Seq<char>;

/// The text chrono writes of an instant read at an offset from UTC (in seconds), with a strftime
/// pattern; the empty text for an instant or offset out of range or a pattern chrono cannot
/// write.
pub uninterp spec fn offset_text(millis: i64, offset_seconds: i32, pattern: Seq<char>) -> Seq<char>;

/// The text `"<Month> <day>, <hh>:<mm>"` (for instance `"March 04, 17:05"`) of an instant, read in
/// UTC.
pub open spec fn month_day_time_text(millis: i64) -> Seq<char> {
    utc_text(millis, "%B %d, %H:%M"@)
}

/// The text `"<hh>:<mm>"` of an instant read at the given offset from UTC, in seconds.
pub open spec fn hour_minute_text(millis: i64, offset_seconds: i32) -> Seq<char> {
    offset_text(millis, offset_seconds, "%H:%M"@)
}

/// The text `"<Mon> <day>, <year> <hh>:<mm>:<ss>"` (for instance `"Mar 04, 2023 17:05:09"`) of an
/// instant, read in UTC.
pub open spec fn date_time_text(millis: i64) -> Seq<char> {
    utc_text(millis, "%b %d, %Y %H:%M:%S"@)
}

/// Reads the current time from the system clock, in milliseconds since the unix epoch.
///
/// Calls `chrono::Utc::now` and `DateTime::timestamp_millis`; the claim is only that the
/// instant is one a date-time can hold. Which instant it is depends on the clock and is left
/// unsaid.
#[verifier::external_body]
pub(crate) fn now_millis() -> (millis: i64)
    ensures
        timestamp_in_range(millis),
{
    chrono::Utc::now().timestamp_millis()
}

/// Writes an instant, read in UTC, with a strftime pattern.
///
/// Calls `chrono::DateTime::<Utc>::from_timestamp_millis` and `format`, writing the result with
/// `write!`, which reports a pattern chrono cannot write instead of panicking; the claim is that
/// the text depends on the instant and the pattern alone (no locale, no time zone of the machine
/// is involved).
#[verifier::external_body]
fn format_utc(millis: i64, pattern: &str) -> (text: String)
    ensures
        text@ == utc_text(millis, pattern@),
{
    let mut out = String::new();
    match chrono::DateTime::<chrono::Utc>::from_timestamp_millis(millis) {
        Some(instant) => match write!(out, "{}", instant.format(pattern)) {
            Ok(()) => out,
            Err(_) => String::new(),
        },
        None => out,
    }
}

/// Writes an instant, read at a fixed offset from UTC, with a strftime pattern.
///
/// Calls `chrono::FixedOffset::east_opt`, `DateTime::<Utc>::from_timestamp_millis`,
/// `with_timezone` and `format`, writing the result with `write!`; the claim is that the text
/// depends on the instant, the offset and the pattern alone.
#[verifier::external_body]
fn format_at_offset(millis: i64, offset_seconds: i32, pattern: &str) -> (text: String)
    ensures
        text@ == offset_text(millis, offset_seconds, pattern@),
{
    let mut out = String::new();
    let offset = chrono::FixedOffset::east_opt(offset_seconds);
    let instant = chrono::DateTime::<chrono::Utc>::from_timestamp_millis(millis);
    match (offset, instant) {
        (Some(offset), Some(instant)) => {
            match write!(out, "{}", instant.with_timezone(&offset).format(pattern)) {
                Ok(()) => out,
                Err(_) => String::new(),
            }
        },
        _ => out,
    }
}

/// Formats an instant, read in UTC, as `"<Month> <day>, <hh>:<mm>"`.
pub(crate) fn format_month_day_time(millis: i64) -> (text: String)
    ensures
        text@ == month_day_time_text(millis),
{
    format_utc(millis, "%B %d, %H:%M")
}

/// Formats an instant, read at an offset from UTC, as `"<hh>:<mm>"`.
pub(crate) fn format_hour_minute(millis: i64, offset_seconds: i32) -> (text: String)
    ensures
        text@ == hour_minute_text(millis, offset_seconds),
{
    format_at_offset(millis, offset_seconds, "%H:%M")
}

/// Formats an instant, read in UTC, as `"<Mon> <day>, <year> <hh>:<mm>:<ss>"`.
pub(crate) fn format_date_time(millis: i64) -> (text: String)
    ensures
        text@ == date_time_text(millis),
{
    format_utc(millis, "%b %d, %Y %H:%M:%S")
}

/// The longest span, in seconds, that a time delta can hold.
pub open spec fn max_delta_seconds() -> int {
    9_223_372_036_854_775
}

/// The instant `seconds` seconds before an instant, both in milliseconds since the unix epoch, if
/// a date-time can hold it.
///
/// Calls `chrono::DateTime::<Utc>::from_timestamp_millis`, `TimeDelta::seconds`,
/// `DateTime::checked_sub_signed` and `DateTime::timestamp_millis`. `TimeDelta::seconds` panics
/// beyond `max_delta_seconds`, which `requires` leaves out.
#[verifier::external_body]
pub(crate) fn millis_before(millis: i64, seconds: i64) -> (earlier: Option<i64>)
    requires
        timestamp_in_range(millis),
        -max_delta_seconds() <= seconds <= max_delta_seconds(),
    ensures
        match earlier {
            Some(e) => e == millis - seconds * 1000 && timestamp_in_range(e),
            None => !(earliest_millis() <= millis - seconds * 1000 <= latest_millis()),
        },
{
    match chrono::DateTime::<chrono::Utc>::from_timestamp_millis(millis) {
        Some(instant) => match instant.checked_sub_signed(chrono::TimeDelta::seconds(seconds)) {
            Some(before) => Some(before.timestamp_millis()),
            None => None,
        },
        None => None,
    }
}

/// The whole seconds since the unix epoch of an instant given in milliseconds, rounded down.
pub open spec fn epoch_seconds(millis: int) -> int {
    millis / 1000
}

/// The instant a day after `now`, or `fallback` when no date-time can hold it.
pub open spec fn day_after(now: i64, fallback: i64) -> int {
    let later = now + 86_400_000;
    if earliest_millis() <= later <= latest_millis() {
        later
    } else {
        fallback as int
    }
}

/// The whole seconds since the unix epoch of an instant given in milliseconds, rounded down.
fn seconds_of(millis: i64) -> (seconds: i64)
    ensures
        seconds == epoch_seconds(millis as int),
{
    if millis >= 0 {
        millis / 1000
    } else {
        let magnitude = -(millis + 1);
        -(magnitude / 1000) - 1
    }
}

/// The whole seconds since the unix epoch of the instant a day from now; when no date-time can
/// hold that instant, of a second reading of the clock instead.
pub(crate) fn seconds_a_day_from_now() -> (seconds: i64)
    ensures
        exists|now: i64, fallback: i64|
            timestamp_in_range(now) && timestamp_in_range(fallback) && seconds == epoch_seconds(
                day_after(now, fallback),
            ),
{
    let now = now_millis();
    let (at, fallback) = match millis_before(now, -86_400) {
        Some(later) => (later, now),
        None => {
            let again = now_millis();
            (again, again)
        },
    };
    let seconds = seconds_of(at);
    assert(timestamp_in_range(now) && timestamp_in_range(fallback) && seconds == epoch_seconds(
        day_after(now, fallback),
    ));
    seconds
}

} // verus!
