//! Contracts taken on trust: the calendar (`chrono`), the cron evaluator
//! (`croner`), the identifier generator (`uuid`), the system clock and a few
//! functions of the standard library.
//!
//! Nothing in this file is proved. Each item says what it assumes of the
//! function it stands for.
//!
//! The calendar and the cron evaluator are asked about instants between the
//! epoch and the end of the year 9999 only: in that range their date
//! arithmetic stays far from the limits at which it gives up.

use chrono::{DateTime, Local, NaiveDateTime, TimeZone};
use croner::Cron;
use std::time::{Duration, SystemTime, SystemTimeError, UNIX_EPOCH};
use vstd::prelude::*;

verus! {

/// Last millisecond of the year 9999 (UTC). Calendar calls are only made for
/// instants between the epoch and this one.
pub const CALENDAR_LIMIT_MS: i64 = 253_402_300_799_999;

/// Whether `ms` lies in the range for which the calendar is consulted.
pub open spec fn in_calendar_range(ms: int) -> bool {
    0 <= ms <= CALENDAR_LIMIT_MS
}

/// `std::time::SystemTime`, a reading of the system clock. Nothing is known
/// of what a value holds.
#[verifier::external_type_specification]
#[verifier::external_body]
pub struct ExSystemTime(SystemTime);

/// `std::time::SystemTimeError`, the error of a clock that reads earlier
/// than the instant it is compared with. Nothing is known of what a value
/// holds.
#[verifier::external_type_specification]
#[verifier::external_body]
pub struct ExSystemTimeError(SystemTimeError);

/// `String::push` appends one character to the end of the string.
pub assume_specification[ String::push ](s: &mut String, ch: char)
    ensures
        final(s)@ == old(s)@.push(ch),
;

/// `SystemTime::now` reads the system clock; nothing is assumed of the reading.
pub assume_specification[ SystemTime::now ]() -> SystemTime;

/// `Duration::as_millis` gives the whole milliseconds a duration holds; the
/// duration itself is opaque here, so nothing is assumed of the number.
pub assume_specification[ Duration::as_millis ](d: &Duration) -> u128;

/// `Duration::as_nanos` gives the nanoseconds a duration holds; nothing is
/// assumed of the number.
pub assume_specification[ Duration::as_nanos ](d: &Duration) -> u128;

/// `SystemTime::duration_since` against `UNIX_EPOCH`: the time elapsed since
/// the epoch, or an error when the clock reads earlier than the epoch.
#[verifier::external_body]
pub(crate) fn since_epoch(t: &SystemTime) -> Result<Duration, SystemTimeError> {
    t.duration_since(UNIX_EPOCH)
}

/// What `chrono::NaiveDateTime::parse_from_str` reads from `text` under the
/// strftime pattern `pattern`: the wall-clock reading, counted in milliseconds
/// from 1970-01-01 00:00:00 with no time zone applied; `None` where the text
/// does not match the pattern.
pub uninterp spec fn naive_datetime_millis(text: Seq<char>, pattern: Seq<char>) -> Option<i64>;

/// Calls `chrono::NaiveDateTime::parse_from_str` and hands the reading out as
/// a number (`and_utc().timestamp_millis()`). Parsing depends on the two
/// texts alone.
#[verifier::external_body]
pub(crate) fn parse_naive_datetime(text: &str, pattern: &str) -> (r: Option<i64>)
    ensures
        r == naive_datetime_millis(text@, pattern@),
{
    match NaiveDateTime::parse_from_str(text, pattern) {
        Ok(naive) => Some(naive.and_utc().timestamp_millis()),
        Err(_) => None,
    }
}

/// Interprets a wall-clock reading in the machine's time zone
/// (`Local.from_local_datetime(..).single()`) and gives the instant in
/// milliseconds since the epoch. `None` when the zone skips that reading or
/// has it twice. The answer depends on the zone, so nothing is assumed of it.
#[verifier::external_body]
pub(crate) fn resolve_local_millis(naive_ms: i64) -> (r: Option<i64>)
    requires
        in_calendar_range(naive_ms as int),
{
    let naive = DateTime::from_timestamp_millis(naive_ms)?.naive_utc();
    match Local.from_local_datetime(&naive).single() {
        Some(local) => Some(local.timestamp_millis()),
        None => None,
    }
}

/// Renders an instant in the machine's time zone with chrono's
/// `DateTime::format`. The text depends on the zone, so nothing is assumed of
/// what it says. That there is a text is assumed:
/// `DateTime::from_timestamp_millis` gives `None` only for a number outside
/// chrono's range of years, which reaches far beyond the year 9999, and
/// converting to the local zone and formatting give a value for every
/// instant.
#[verifier::external_body]
pub(crate) fn format_local_millis(ms: i64, pattern: &str) -> (r: Option<String>)
    requires
        in_calendar_range(ms as int),
        pattern@ == "%Y-%m-%d %H:%M"@,
    ensures
        r is Some,
{
    match DateTime::from_timestamp_millis(ms) {
        Some(utc) => Some(utc.with_timezone(&Local).format(pattern).to_string()),
        None => None,
    }
}

/// The message with which `croner` rejects `expr` as a cron pattern
/// (`Cron::new(expr).parse()`), `None` where it accepts it.
pub uninterp spec fn cron_pattern_error(expr: Seq<char>) -> Option<Seq<char>>;

/// Calls `croner::Cron::new(expr).parse()` and hands out the error's text.
/// Parsing depends on `expr` alone.
#[verifier::external_body]
pub(crate) fn check_cron_pattern(expr: &str) -> (r: Option<String>)
    ensures
        cron_pattern_error(expr@) == match r {
            Some(message) => Some(message@),
            None => None,
        },
{
    match Cron::new(expr).parse() {
        Ok(_) => None,
        Err(e) => Some(e.to_string()),
    }
}

/// The next instant after `after_ms` at which the cron pattern `expr` matches
/// the wall clock of the machine's time zone
/// (`croner::Cron::find_next_occurrence`, start excluded). `None` when the
/// pattern does not parse or the search gives up. The answer depends on the
/// zone, so all that is assumed of it is that a pattern which `croner`
/// rejects has no next instant.
#[verifier::external_body]
pub(crate) fn next_cron_local(expr: &str, after_ms: i64) -> (r: Option<i64>)
    requires
        in_calendar_range(after_ms as int),
    ensures
        cron_pattern_error(expr@) is Some ==> r is None,
{
    let cron = Cron::new(expr).parse().ok()?;
    let after = DateTime::from_timestamp_millis(after_ms)?.with_timezone(&Local);
    match cron.find_next_occurrence(&after, false) {
        Ok(next) => Some(next.timestamp_millis()),
        Err(_) => None,
    }
}

/// The upper-case form that `str::to_uppercase` gives a text: each character
/// replaced by its Unicode upper-case mapping, which may be longer than one
/// character.
pub uninterp spec fn uppercase_of(s: Seq<char>) -> Seq<char>;

/// Calls `str::to_uppercase`. The mapping depends on the text alone.
#[verifier::external_body]
pub(crate) fn to_uppercase(s: &str) -> (r: String)
    ensures
        r@ == uppercase_of(s@),
{
    s.to_uppercase()
}

/// The lower-case form that `str::to_lowercase` gives a text: each character
/// replaced by its Unicode lower-case mapping.
pub uninterp spec fn lowercase_of(s: Seq<char>) -> Seq<char>;

/// Calls `str::to_lowercase`. The mapping depends on the text alone.
#[verifier::external_body]
pub(crate) fn to_lowercase(s: &str) -> (r: String)
    ensures
        r@ == lowercase_of(s@),
{
    s.to_lowercase()
}

/// A fresh random identifier: `uuid::Uuid::new_v4()` in its hyphenated text
/// form. Nothing is assumed of the text.
#[verifier::external_body]
pub(crate) fn generate_job_id() -> String {
    uuid::Uuid::new_v4().to_string()
}

} // verus!
