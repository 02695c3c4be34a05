//! Schedules: when a job is due next, how a schedule is written and read.

use crate::text::{
    all_digits, chars_of, decimal, decimal_value, is_text, leading_digits, parse_decimal,
    push_all, push_decimal, push_str, slice_of, starts_with_str, string_of, trim, trimmed,
};
use crate::trusted::{
    check_cron_pattern, cron_pattern_error, format_local_millis, in_calendar_range,
    naive_datetime_millis, next_cron_local, parse_naive_datetime, resolve_local_millis,
    CALENDAR_LIMIT_MS,
};
use vstd::prelude::*;

verus! {

/// Milliseconds in a second.
pub const MS_PER_SECOND: u64 = 1_000;

/// Milliseconds in a minute.
pub const MS_PER_MINUTE: u64 = 60_000;

/// Milliseconds in an hour.
pub const MS_PER_HOUR: u64 = 3_600_000;

/// Milliseconds in a day.
pub const MS_PER_DAY: u64 = 86_400_000;

/// When a job runs.
#[derive(Debug, PartialEq)]
pub enum CronSchedule {
    /// Once, at this instant (milliseconds since the Unix epoch).
    At(u64),
    /// Again and again, this many milliseconds after the reference time.
    Every(u64),
    /// By a five-field cron expression.
    Cron(String),
}

/// The mathematical value of a [`CronSchedule`].
pub enum ScheduleView {
    At(u64),
    Every(u64),
    Cron(Seq<char>),
}

impl View for CronSchedule {
    type V = ScheduleView;

    open spec fn view(&self) -> ScheduleView {
        match self {
            CronSchedule::At(ts) => ScheduleView::At(*ts),
            CronSchedule::Every(ms) => ScheduleView::Every(*ms),
            CronSchedule::Cron(expr) => ScheduleView::Cron(expr@),
        }
    }
}

impl Clone for CronSchedule {
    fn clone(&self) -> (r: Self)
        ensures
            r == *self,
    {
        match self {
            CronSchedule::At(ts) => CronSchedule::At(*ts),
            CronSchedule::Every(ms) => CronSchedule::Every(*ms),
            CronSchedule::Cron(expr) => CronSchedule::Cron(expr.clone()),
        }
    }
}

// ---------------------------------------------------------------------------
// Specification
// ---------------------------------------------------------------------------

/// The next due time of a one-shot or interval schedule after `after_ms`.
///
/// A one-shot schedule is due at its instant while that is still ahead, and
/// never afterwards. An interval schedule is due one interval after the
/// reference time; where that sum does not fit in 64 bits there is no next
/// time. A cron schedule is resolved by the calendar and has no value here.
pub open spec fn next_run_spec(schedule: ScheduleView, after_ms: u64) -> Option<u64>
    recommends
        !(schedule is Cron),
{
    match schedule {
        ScheduleView::At(ts) => if ts > after_ms {
            Some(ts)
        } else {
            None
        },
        ScheduleView::Every(interval) => if after_ms + interval <= u64::MAX {
            Some((after_ms + interval) as u64)
        } else {
            None
        },
        ScheduleView::Cron(_) => None,
    }
}

/// Milliseconds in the unit that `unit` names.
pub open spec fn unit_millis(unit: Seq<char>) -> Option<u64> {
    if unit == "s"@ || unit == "sec"@ || unit == "secs"@ || unit == "second"@ || unit
        == "seconds"@ {
        Some(MS_PER_SECOND)
    } else if unit == "m"@ || unit == "min"@ || unit == "mins"@ || unit == "minute"@ || unit
        == "minutes"@ {
        Some(MS_PER_MINUTE)
    } else if unit == "h"@ || unit == "hr"@ || unit == "hrs"@ || unit == "hour"@ || unit
        == "hours"@ {
        Some(MS_PER_HOUR)
    } else if unit == "d"@ || unit == "day"@ || unit == "days"@ {
        Some(MS_PER_DAY)
    } else {
        None
    }
}

/// What a duration text such as `10s`, `5 min` or `2d` denotes in
/// milliseconds, or the reason why it denotes nothing.
pub open spec fn parse_duration_spec(s: Seq<char>) -> Result<u64, Seq<char>> {
    let t = trim(s);
    let n = leading_digits(t, 0);
    let digits = t.take(n);
    let unit = trim(t.skip(n));
    if t.len() == 0 {
        Err("Empty duration string"@)
    } else if n == 0 {
        Err("Invalid duration: "@ + t)
    } else if decimal_value(digits) > u64::MAX {
        Err("Invalid number: "@ + digits)
    } else {
        match unit_millis(unit) {
            None => Err("Invalid unit: "@ + unit + ". Use s/m/h/d"@),
            Some(per_unit) => if decimal_value(digits) * per_unit > u64::MAX {
                Err("Invalid duration: "@ + t)
            } else {
                Ok((decimal_value(digits) * per_unit) as u64)
            },
        }
    }
}

/// How an interval is written: in the largest unit that divides it, in
/// milliseconds when no unit does.
pub open spec fn format_duration_spec(ms: u64) -> Seq<char> {
    if ms >= MS_PER_DAY && ms % MS_PER_DAY == 0 {
        "every "@ + decimal((ms / MS_PER_DAY) as nat) + "d"@
    } else if ms >= MS_PER_HOUR && ms % MS_PER_HOUR == 0 {
        "every "@ + decimal((ms / MS_PER_HOUR) as nat) + "h"@
    } else if ms >= MS_PER_MINUTE && ms % MS_PER_MINUTE == 0 {
        "every "@ + decimal((ms / MS_PER_MINUTE) as nat) + "m"@
    } else if ms >= MS_PER_SECOND && ms % MS_PER_SECOND == 0 {
        "every "@ + decimal((ms / MS_PER_SECOND) as nat) + "s"@
    } else {
        "every "@ + decimal(ms as nat) + "ms"@
    }
}

/// The message for a date and time that cannot be read.
pub open spec fn invalid_datetime_message(text: Seq<char>) -> Seq<char> {
    "Invalid datetime: "@ + text + ". Use format: YYYY-MM-DD HH:MM"@
}

/// Whether a schedule text asks for a one-shot run (`at <date> <time>`).
pub open spec fn is_at_text(input: Seq<char>) -> bool {
    "at "@.is_prefix_of(trim(input))
}

/// The date and time of a one-shot schedule text, trimmed.
pub open spec fn at_text(input: Seq<char>) -> Seq<char> {
    trim(trim(input).skip(3))
}

/// Whether the calendar reads `text` as a wall-clock time in the supported
/// range under the pattern `pattern`.
pub open spec fn reads_under(text: Seq<char>, pattern: Seq<char>) -> bool {
    naive_datetime_millis(text, pattern) matches Some(ms) && in_calendar_range(ms as int)
}

/// Whether the calendar reads `text` under one of the four supported patterns.
pub open spec fn reads_as_datetime(text: Seq<char>) -> bool {
    reads_under(text, "%Y-%m-%d %H:%M:%S"@) || reads_under(text, "%Y-%m-%d %H:%M"@)
        || reads_under(text, "%Y-%m-%dT%H:%M:%S"@) || reads_under(text, "%Y-%m-%dT%H:%M"@)
}

/// The instant a calendar answer stands for: answers before the epoch stand
/// for none.
pub open spec fn instant_of(found: Option<i64>) -> Option<u64> {
    match found {
        Some(ms) => if ms >= 0 {
            Some(ms as u64)
        } else {
            None
        },
        None => None,
    }
}

/// What a schedule text other than a one-shot one means.
pub open spec fn parse_plain_spec(input: Seq<char>) -> Result<ScheduleView, Seq<char>>
    recommends
        !is_at_text(input),
{
    let t = trim(input);
    if "every "@.is_prefix_of(t) {
        match parse_duration_spec(t.skip(6)) {
            Ok(ms) => Ok(ScheduleView::Every(ms)),
            Err(reason) => Err(reason),
        }
    } else {
        match cron_check(t) {
            Ok(_) => Ok(ScheduleView::Cron(t)),
            Err(reason) => Err(reason),
        }
    }
}

/// What a schedule text means. A one-shot text means what the calendar
/// resolved its date and time to (`resolved`; `None` where it gave no
/// instant); every other text is fixed by [`parse_plain_spec`].
pub open spec fn parse_spec(input: Seq<char>, resolved: Option<u64>) -> Result<
    ScheduleView,
    Seq<char>,
> {
    if is_at_text(input) {
        match resolved {
            Some(ts) => Ok(ScheduleView::At(ts)),
            None => Err(invalid_datetime_message(at_text(input))),
        }
    } else {
        parse_plain_spec(input)
    }
}

/// The instant of a parse result that is a one-shot schedule.
pub open spec fn at_instant(r: Result<ScheduleView, Seq<char>>) -> Option<u64> {
    match r {
        Ok(ScheduleView::At(ts)) => Some(ts),
        _ => None,
    }
}

/// The view of a parse result.
pub open spec fn schedule_result_view(r: Result<CronSchedule, String>) -> Result<
    ScheduleView,
    Seq<char>,
> {
    match r {
        Ok(schedule) => Ok(schedule@),
        Err(reason) => Err(reason@),
    }
}

/// The view of a duration parse result.
pub open spec fn duration_result_view(r: Result<u64, String>) -> Result<u64, Seq<char>> {
    match r {
        Ok(ms) => Ok(ms),
        Err(reason) => Err(reason@),
    }
}

/// How a one-shot schedule is written, given the calendar's rendering of its
/// instant (`None` where the calendar gave none).
pub open spec fn describe_at_spec(ts: u64, rendered: Option<Seq<char>>) -> Seq<char> {
    match rendered {
        Some(text) => "at "@ + text,
        None => "at "@ + decimal(ts as nat),
    }
}

// ---------------------------------------------------------------------------
// Durations
// ---------------------------------------------------------------------------

/// Milliseconds in the unit that `unit` names.
pub fn unit_multiplier(unit: &[char]) -> (r: Option<u64>)
    ensures
        r == unit_millis(unit@),
{
    if is_text(unit, "s") || is_text(unit, "sec") || is_text(unit, "secs") || is_text(
        unit,
        "second",
    ) || is_text(unit, "seconds") {
        Some(MS_PER_SECOND)
    } else if is_text(unit, "m") || is_text(unit, "min") || is_text(unit, "mins") || is_text(
        unit,
        "minute",
    ) || is_text(unit, "minutes") {
        Some(MS_PER_MINUTE)
    } else if is_text(unit, "h") || is_text(unit, "hr") || is_text(unit, "hrs") || is_text(
        unit,
        "hour",
    ) || is_text(unit, "hours") {
        Some(MS_PER_HOUR)
    } else if is_text(unit, "d") || is_text(unit, "day") || is_text(unit, "days") {
        Some(MS_PER_DAY)
    } else {
        None
    }
}

/// Number of digits at the front of `v`.
fn count_leading_digits(v: &[char]) -> (n: usize)
    ensures
        n == leading_digits(v@, 0),
        n <= v.len(),
        all_digits(v@.take(n as int)),
{
    let mut n: usize = 0;
    while n < v.len() && '0' <= v[n] && v[n] <= '9'
        invariant
            n <= v.len(),
            leading_digits(v@, 0) == n + leading_digits(v@, n as int),
            all_digits(v@.take(n as int)),
        decreases v.len() - n,
    {
        n += 1;
    }
    n
}

/// Text made of `head` followed by `tail`.
fn message2(head: &str, tail: &[char]) -> (r: String)
    ensures
        r@ == head@ + tail@,
{
    let mut out: Vec<char> = Vec::new();
    push_str(&mut out, head);
    push_all(&mut out, tail);
    string_of(out.as_slice())
}

/// Text made of `head`, `middle` and `tail`.
fn message3(head: &str, middle: &[char], tail: &str) -> (r: String)
    ensures
        r@ == head@ + middle@ + tail@,
{
    let mut out: Vec<char> = Vec::new();
    push_str(&mut out, head);
    push_all(&mut out, middle);
    push_str(&mut out, tail);
    string_of(out.as_slice())
}

/// Reads a duration such as `10s`, `5m`, `1h`, `2d`, `30min` or `24hours`.
///
/// The text is a run of digits followed by a unit. A duration that does not
/// fit in 64 bits of milliseconds is rejected.
pub fn parse_duration(s: &str) -> (r: Result<u64, String>)
    ensures
        duration_result_view(r) == parse_duration_spec(s@),
{
    let raw = chars_of(s);
    parse_duration_chars(raw.as_slice())
}

/// [`parse_duration`] on a character slice.
pub fn parse_duration_chars(s: &[char]) -> (r: Result<u64, String>)
    ensures
        duration_result_view(r) == parse_duration_spec(s@),
{
    let t = trimmed(s);
    if t.len() == 0 {
        return Err("Empty duration string".to_owned());
    }
    let n = count_leading_digits(t.as_slice());
    if n == 0 {
        return Err(message2("Invalid duration: ", t.as_slice()));
    }
    let digits = slice_of(t.as_slice(), 0, n);
    let unit = trimmed(slice_of(t.as_slice(), n, t.len()).as_slice());
    let number = match parse_decimal(digits.as_slice()) {
        Some(number) => number,
        None => {
            return Err(message2("Invalid number: ", digits.as_slice()));
        },
    };
    match unit_multiplier(unit.as_slice()) {
        None => Err(message3("Invalid unit: ", unit.as_slice(), ". Use s/m/h/d")),
        Some(per_unit) => {
            match number.checked_mul(per_unit) {
                Some(ms) => Ok(ms),
                None => Err(message2("Invalid duration: ", t.as_slice())),
            }
        },
    }
}

/// Writes an interval in the largest unit that divides it.
pub fn format_duration(ms: u64) -> (r: String)
    ensures
        r@ == format_duration_spec(ms),
{
    let mut out: Vec<char> = Vec::new();
    push_str(&mut out, "every ");
    if ms >= MS_PER_DAY && ms % MS_PER_DAY == 0 {
        push_decimal(&mut out, ms / MS_PER_DAY);
        push_str(&mut out, "d");
    } else if ms >= MS_PER_HOUR && ms % MS_PER_HOUR == 0 {
        push_decimal(&mut out, ms / MS_PER_HOUR);
        push_str(&mut out, "h");
    } else if ms >= MS_PER_MINUTE && ms % MS_PER_MINUTE == 0 {
        push_decimal(&mut out, ms / MS_PER_MINUTE);
        push_str(&mut out, "m");
    } else if ms >= MS_PER_SECOND && ms % MS_PER_SECOND == 0 {
        push_decimal(&mut out, ms / MS_PER_SECOND);
        push_str(&mut out, "s");
    } else {
        push_decimal(&mut out, ms);
        push_str(&mut out, "ms");
    }
    string_of(out.as_slice())
}

// ---------------------------------------------------------------------------
// Dates and times
// ---------------------------------------------------------------------------

/// The instant a calendar answer stands for.
pub fn instant(found: Option<i64>) -> (r: Option<u64>)
    ensures
        r == instant_of(found),
{
    match found {
        Some(ms) => if ms >= 0 {
            Some(ms as u64)
        } else {
            None
        },
        None => None,
    }
}

/// Asks the calendar for the instant that `text` names under `pattern` in
/// the local time zone.
fn local_reading(text: &str, pattern: &str) -> (r: Option<u64>)
    ensures
        !reads_under(text@, pattern@) ==> r is None,
{
    match parse_naive_datetime(text, pattern) {
        Some(naive_ms) => {
            if 0 <= naive_ms && naive_ms <= CALENDAR_LIMIT_MS {
                instant(resolve_local_millis(naive_ms))
            } else {
                None
            }
        },
        None => None,
    }
}

/// The result of reading a date and time, given the instant the calendar
/// resolved it to.
pub fn datetime_outcome(text: &[char], resolved: Option<u64>) -> (r: Result<u64, String>)
    ensures
        duration_result_view(r) == match resolved {
            Some(ts) => Ok::<u64, Seq<char>>(ts),
            None => Err(invalid_datetime_message(text@)),
        },
{
    match resolved {
        Some(ts) => Ok(ts),
        None => Err(message3("Invalid datetime: ", text, ". Use format: YYYY-MM-DD HH:MM")),
    }
}

/// Reads a date and time (`YYYY-MM-DD HH:MM[:SS]`, with a space or a `T`
/// between date and time) as an instant in the local time zone.
///
/// The calendar decides which instant a reading names; a text that it reads
/// under none of the patterns is rejected.
pub fn parse_datetime(s: &str) -> (r: Result<u64, String>)
    ensures
        r matches Err(reason) ==> reason@ == invalid_datetime_message(trim(s@)),
        !reads_as_datetime(trim(s@)) ==> r is Err,
{
    let raw = chars_of(s);
    let t = trimmed(raw.as_slice());
    let text = string_of(t.as_slice());
    let mut found = local_reading(text.as_str(), "%Y-%m-%d %H:%M:%S");
    if found.is_none() {
        found = local_reading(text.as_str(), "%Y-%m-%d %H:%M");
    }
    if found.is_none() {
        found = local_reading(text.as_str(), "%Y-%m-%dT%H:%M:%S");
    }
    if found.is_none() {
        found = local_reading(text.as_str(), "%Y-%m-%dT%H:%M");
    }
    datetime_outcome(t.as_slice(), found)
}

/// How a one-shot schedule is written, given the calendar's rendering of its
/// instant.
pub fn describe_at(ts: u64, rendered: Option<String>) -> (r: String)
    ensures
        r@ == describe_at_spec(
            ts,
            match rendered {
                Some(text) => Some(text@),
                None => None,
            },
        ),
{
    let mut out: Vec<char> = Vec::new();
    push_str(&mut out, "at ");
    match rendered {
        Some(text) => {
            push_str(&mut out, text.as_str());
        },
        None => {
            push_decimal(&mut out, ts);
        },
    }
    string_of(out.as_slice())
}

/// The local date and time of an instant to the minute: the calendar's
/// rendering for every instant up to the end of the year 9999, none for a
/// later one.
pub fn render_local_minute(ts: u64) -> (r: Option<String>)
    ensures
        r is Some <==> ts <= CALENDAR_LIMIT_MS,
{
    if ts <= CALENDAR_LIMIT_MS as u64 {
        format_local_millis(ts as i64, "%Y-%m-%d %H:%M")
    } else {
        None
    }
}

// ---------------------------------------------------------------------------
// Cron expressions
// ---------------------------------------------------------------------------

/// What checking a cron expression gives: nothing to object to, or the cron
/// evaluator's objection.
pub open spec fn cron_check(expr: Seq<char>) -> Result<(), Seq<char>> {
    match cron_pattern_error(expr) {
        None => Ok(()),
        Some(reason) => Err("Invalid cron expression: "@ + reason),
    }
}

/// Checks a cron expression with the cron evaluator.
pub fn validate_cron_expression(expr: &str) -> (r: Result<(), String>)
    ensures
        cron_check(expr@) == match r {
            Ok(_) => Ok::<(), Seq<char>>(()),
            Err(reason) => Err(reason@),
        },
{
    match check_cron_pattern(expr) {
        None => Ok(()),
        Some(reason) => {
            let why = chars_of(reason.as_str());
            Err(message2("Invalid cron expression: ", why.as_slice()))
        },
    }
}

/// The next instant after `after_ms` at which a cron expression matches the
/// local wall clock, as the cron evaluator finds it. There is none from a
/// reference time beyond the calendar's range, none for an expression that
/// is no cron pattern, and none before the epoch.
pub fn calculate_next_cron(expr: &str, after_ms: u64) -> (r: Option<u64>)
    ensures
        after_ms > CALENDAR_LIMIT_MS ==> r is None,
        cron_pattern_error(expr@) is Some ==> r is None,
{
    if after_ms <= CALENDAR_LIMIT_MS as u64 {
        instant(next_cron_local(expr, after_ms as i64))
    } else {
        None
    }
}

// ---------------------------------------------------------------------------
// Schedules
// ---------------------------------------------------------------------------

impl CronSchedule {
    /// Reads a schedule.
    ///
    /// Three forms are understood after trimming: `at <date> <time>` (local
    /// time), `every <n><unit>`, and a cron expression. For the first the
    /// calendar decides which instant is meant; the other two are fixed by
    /// the text.
    pub fn parse(input: &str) -> (r: Result<CronSchedule, String>)
        ensures
            schedule_result_view(r) == parse_spec(input@, at_instant(schedule_result_view(r))),
            is_at_text(input@) && !reads_as_datetime(at_text(input@)) ==> r is Err,
    {
        let raw = chars_of(input);
        let t = trimmed(raw.as_slice());
        if starts_with_str(t.as_slice(), "at ") {
            proof {
                reveal_strlit("at ");
            }
            let rest = slice_of(t.as_slice(), 3, t.len());
            let text = string_of(rest.as_slice());
            proof {
                crate::text::lemma_trim_is_trimmed(rest@);
            }
            return match parse_datetime(text.as_str()) {
                Ok(ts) => Ok(CronSchedule::At(ts)),
                Err(reason) => Err(reason),
            };
        }
        if starts_with_str(t.as_slice(), "every ") {
            proof {
                reveal_strlit("every ");
            }
            let rest = slice_of(t.as_slice(), 6, t.len());
            return match parse_duration_chars(rest.as_slice()) {
                Ok(ms) => Ok(CronSchedule::Every(ms)),
                Err(reason) => Err(reason),
            };
        }
        let expr = string_of(t.as_slice());
        match validate_cron_expression(expr.as_str()) {
            Ok(_) => Ok(CronSchedule::Cron(expr)),
            Err(reason) => Err(reason),
        }
    }

    /// The next due time after `after_ms`, `None` when there is none.
    ///
    /// One-shot and interval schedules are computed here (see
    /// [`next_run_spec`]). For a cron schedule the calendar is asked for the
    /// next match of the expression on the local wall clock; reference times
    /// beyond the calendar's range have no next match, and neither has an
    /// expression that is no cron pattern.
    pub fn next_run_after(&self, after_ms: u64) -> (r: Option<u64>)
        ensures
            !(self@ is Cron) ==> r == next_run_spec(self@, after_ms),
            self@ is Cron && after_ms > CALENDAR_LIMIT_MS ==> r is None,
            self@ matches ScheduleView::Cron(expr) && cron_pattern_error(expr) is Some ==> r
                is None,
    {
        match self {
            CronSchedule::At(ts) => {
                if *ts > after_ms {
                    Some(*ts)
                } else {
                    None
                }
            },
            CronSchedule::Every(interval) => after_ms.checked_add(*interval),
            CronSchedule::Cron(expr) => calculate_next_cron(expr.as_str(), after_ms),
        }
    }

    /// How the schedule is written for people.
    ///
    /// An interval is written so that [`CronSchedule::parse`] reads it back;
    /// a cron expression is written as it is; a one-shot schedule is written
    /// as `at` and its local date and time, or its number where the calendar
    /// gives no date.
    pub fn description(&self) -> (r: String)
        ensures
            self@ matches ScheduleView::Every(ms) ==> r@ == format_duration_spec(ms),
            self@ matches ScheduleView::Cron(expr) ==> r@ == expr,
            self@ matches ScheduleView::At(ts) ==> "at "@.is_prefix_of(r@) && (ts
                > CALENDAR_LIMIT_MS ==> r@ == describe_at_spec(ts, None)),
    {
        match self {
            CronSchedule::At(ts) => describe_at(*ts, render_local_minute(*ts)),
            CronSchedule::Every(ms) => format_duration(*ms),
            CronSchedule::Cron(expr) => expr.clone(),
        }
    }
}

// ---------------------------------------------------------------------------
// Laws
// ---------------------------------------------------------------------------

/// An interval schedule is due exactly one interval after the reference
/// time, and asking again from that due time advances by exactly one more
/// interval: nothing accumulates but the repeated addition. (Stated for the
/// times at which both sums fit in 64 bits.)
pub proof fn law_every_advances_by_interval(interval: u64, t: u64)
    requires
        t + interval + interval <= u64::MAX,
    ensures
        next_run_spec(ScheduleView::Every(interval), t) == Some((t + interval) as u64),
        next_run_spec(ScheduleView::Every(interval), (t + interval) as u64) == Some(
            (t + interval + interval) as u64,
        ),
{
}

/// A one-shot schedule is due at its instant from every earlier reference
/// time, and never from its instant on.
pub proof fn law_at_fires_once(ts: u64, t: u64)
    ensures
        t < ts ==> next_run_spec(ScheduleView::At(ts), t) == Some(ts),
        t >= ts ==> next_run_spec(ScheduleView::At(ts), t) is None,
{
}

/// The next due time is a function of the schedule and the reference time,
/// and only a one-shot schedule whose instant has come, or an interval that
/// leaves the 64-bit range, has none.
pub proof fn law_no_next_run(schedule: ScheduleView, t: u64)
    requires
        !(schedule is Cron),
    ensures
        next_run_spec(schedule, t) is None <==> (schedule matches ScheduleView::At(ts) && ts <= t)
            || (schedule matches ScheduleView::Every(interval) && t + interval > u64::MAX),
{
}

/// The digits, the unit letter and the milliseconds per unit with which an
/// interval of whole seconds is written.
pub open spec fn written_unit(ms: u64) -> (nat, Seq<char>, u64) {
    if ms >= MS_PER_DAY && ms % MS_PER_DAY == 0 {
        ((ms / MS_PER_DAY) as nat, "d"@, MS_PER_DAY)
    } else if ms >= MS_PER_HOUR && ms % MS_PER_HOUR == 0 {
        ((ms / MS_PER_HOUR) as nat, "h"@, MS_PER_HOUR)
    } else if ms >= MS_PER_MINUTE && ms % MS_PER_MINUTE == 0 {
        ((ms / MS_PER_MINUTE) as nat, "m"@, MS_PER_MINUTE)
    } else {
        ((ms / MS_PER_SECOND) as nat, "s"@, MS_PER_SECOND)
    }
}

/// Reading back what was written: the description of an interval of whole
/// seconds parses to that same interval.
pub proof fn law_interval_description_reads_back(ms: u64)
    requires
        ms >= MS_PER_SECOND,
        ms % MS_PER_SECOND == 0,
    ensures
        forall|resolved: Option<u64>| #[trigger]
            parse_spec(format_duration_spec(ms), resolved) == Ok::<ScheduleView, Seq<char>>(
                ScheduleView::Every(ms),
            ),
{
    reveal_strlit("every ");
    reveal_strlit("at ");
    reveal_strlit("s");
    reveal_strlit("sec");
    reveal_strlit("secs");
    reveal_strlit("second");
    reveal_strlit("seconds");
    reveal_strlit("m");
    reveal_strlit("min");
    reveal_strlit("mins");
    reveal_strlit("minute");
    reveal_strlit("minutes");
    reveal_strlit("h");
    reveal_strlit("hr");
    reveal_strlit("hrs");
    reveal_strlit("hour");
    reveal_strlit("hours");
    reveal_strlit("d");
    reveal_strlit("day");
    reveal_strlit("days");
    let (count, unit, per_unit) = written_unit(ms);
    let numeral = decimal(count);
    let text = format_duration_spec(ms);
    crate::text::lemma_decimal_value(count);
    assert(text == "every "@ + numeral + unit);
    assert(unit.len() == 1);
    assert(text[0] == 'e');
    assert(text[text.len() - 1] == unit[0]);
    crate::text::lemma_trim_fixed(text);
    assert(!"at "@.is_prefix_of(text)) by {
        if "at "@.is_prefix_of(text) {
            assert(text[0] == "at "@[0]);
        }
    }
    assert("every "@.is_prefix_of(text));
    let rest = text.skip(6);
    assert(rest == numeral + unit);
    assert(rest[0] == numeral[0]);
    assert(crate::text::is_digit(numeral[0]));
    assert(rest[rest.len() - 1] == unit[0]);
    crate::text::lemma_trim_fixed(rest);
    crate::text::lemma_leading_digits_of_concat(numeral, unit);
    assert(rest.take(numeral.len() as int) == numeral);
    assert(rest.skip(numeral.len() as int) == unit);
    crate::text::lemma_trim_fixed(unit);
    assert(unit_millis(unit) == Some(per_unit));
    assert(count * per_unit == ms);
}

} // verus!
