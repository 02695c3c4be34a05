//! Scheduled jobs: clock, schedules, the job table and the scheduler.
//!
//! The scheduler is written as transitions on the job table. Whoever drives
//! it waits for the next tick, reloads the table, calls
//! [`CronService::tick`], runs each job it gets back, and reports every end
//! of a run with [`CronService::finish`].

pub mod clock;
pub mod schedule;
pub mod store;

use crate::cron::clock::Clock;
use crate::cron::schedule::{
    next_run_spec, parse_spec, render_local_minute, CronSchedule, ScheduleView,
};
use crate::cron::store::{
    due_by, own_job, owner_is, pointees, removal, start_all, started, CronJob, CronJobState,
    CronStore, JobId, JobStatus, StoreError,
};
use crate::text::{
    chars_of, push_all, push_str, slice_of, split_limit, split_n, starts_with_str, string_of,
    trim, trimmed,
};
use crate::trusted::{generate_job_id, CALENDAR_LIMIT_MS};
use vstd::prelude::*;

verus! {

// ---------------------------------------------------------------------------
// Configuration
// ---------------------------------------------------------------------------

/// Settings of the scheduler.
#[derive(Clone, Copy, Debug)]
pub struct CronConfig {
    /// Milliseconds between two looks for due jobs.
    pub tick_interval_ms: u64,
}

impl Default for CronConfig {
    fn default() -> (r: Self)
        ensures
            r.tick_interval_ms == 60_000,
    {
        CronConfig { tick_interval_ms: 60_000 }
    }
}

// ---------------------------------------------------------------------------
// Display helpers
// ---------------------------------------------------------------------------

/// How an instant is shown, given the calendar's rendering of it: the
/// rendering, or `unknown` where the calendar gave none.
pub open spec fn timestamp_text(rendered: Option<String>) -> Seq<char> {
    match rendered {
        Some(text) => text@,
        None => "unknown"@,
    }
}

/// How an instant is shown, given the calendar's rendering of it.
pub fn shown_timestamp(rendered: Option<String>) -> (r: String)
    ensures
        r@ == timestamp_text(rendered),
{
    match rendered {
        Some(text) => text,
        None => "unknown".to_owned(),
    }
}

/// An instant as local date and time to the minute, or `unknown` where the
/// calendar gives none, as it does for every instant beyond its range.
pub fn format_timestamp(ms: u64) -> (r: String)
    ensures
        ms > CALENDAR_LIMIT_MS ==> r@ == "unknown"@,
{
    shown_timestamp(render_local_minute(ms))
}

/// A text cut down to a name of at most `max_len` characters: the trimmed
/// text where it is short enough, else its first `max_len - 3` characters
/// and three dots.
pub open spec fn truncate_spec(s: Seq<char>, max_len: nat) -> Seq<char> {
    let t = trim(s);
    if t.len() <= max_len {
        t
    } else if max_len >= 3 {
        t.take(max_len - 3) + "..."@
    } else {
        "..."@
    }
}

/// Cuts a text down for use as a job name.
pub fn truncate_for_name(s: &str, max_len: usize) -> (r: String)
    ensures
        r@ == truncate_spec(s@, max_len as nat),
{
    let raw = chars_of(s);
    let t = trimmed(raw.as_slice());
    if t.len() <= max_len {
        string_of(t.as_slice())
    } else {
        let keep: usize = if max_len >= 3 {
            max_len - 3
        } else {
            0
        };
        let mut out = slice_of(t.as_slice(), 0, keep);
        push_str(&mut out, "...");
        proof {
            assert(t@.take(0) + "..."@ == "..."@);
        }
        string_of(out.as_slice())
    }
}

// ---------------------------------------------------------------------------
// The `add` command
// ---------------------------------------------------------------------------

/// The message for an empty `add` command.
pub const USAGE_ADD: &'static str = "Usage: /cron add <schedule> <prompt>";

/// The message for an interval without a prompt.
pub const USAGE_ADD_EVERY: &'static str = "Usage: /cron add every <interval> <prompt>";

/// The message for a one-shot schedule without a prompt.
pub const USAGE_ADD_AT: &'static str = "Usage: /cron add at <date> <time> <prompt>";

/// The message for a text that starts with no schedule.
pub const USAGE_SCHEDULES: &'static str = "Could not parse schedule. Use:\n- every <interval> (e.g., every 1h, every 10s)\n- at <datetime> (e.g., at 2024-01-28 14:00)\n- <cron expression> (e.g., 0 9 * * *)";

/// The words `parts[0..n]` with one space between them.
pub open spec fn spaced(parts: Seq<Seq<char>>, n: nat) -> Seq<char>
    decreases n,
{
    if n == 0 || n > parts.len() {
        Seq::empty()
    } else if n == 1 {
        parts[0]
    } else {
        spaced(parts, (n - 1) as nat) + " "@ + parts[n - 1]
    }
}

/// A schedule and the prompt that follows it, or why there is none.
pub open spec fn with_prompt(
    schedule: Result<ScheduleView, Seq<char>>,
    prompt: Seq<char>,
) -> Result<(ScheduleView, Seq<char>), Seq<char>> {
    match schedule {
        Ok(s) => Ok((s, prompt)),
        Err(reason) => Err(reason),
    }
}

/// What the text of an `add` command asks for: a schedule and a prompt.
///
/// An interval takes two words, a one-shot schedule three, a cron expression
/// five; the prompt is what follows. `resolved` is the instant the calendar
/// gave for a one-shot schedule.
pub open spec fn parse_add_spec(input: Seq<char>, resolved: Option<u64>) -> Result<
    (ScheduleView, Seq<char>),
    Seq<char>,
> {
    let t = trim(input);
    if t.len() == 0 {
        Err(USAGE_ADD@)
    } else if "every "@.is_prefix_of(t) {
        let parts = split_limit(t, ' ', 3);
        if parts.len() < 3 {
            Err(USAGE_ADD_EVERY@)
        } else {
            with_prompt(parse_spec(spaced(parts, 2), resolved), parts[2])
        }
    } else if "at "@.is_prefix_of(t) {
        let parts = split_limit(t, ' ', 4);
        if parts.len() < 4 {
            Err(USAGE_ADD_AT@)
        } else {
            with_prompt(parse_spec(spaced(parts, 3), resolved), parts[3])
        }
    } else {
        let parts = split_limit(t, ' ', 6);
        if parts.len() >= 6 && parse_spec(spaced(parts, 5), resolved) is Ok {
            with_prompt(parse_spec(spaced(parts, 5), resolved), parts[5])
        } else {
            Err(USAGE_SCHEDULES@)
        }
    }
}

/// The view of the result of reading an `add` command.
pub open spec fn add_result_view(r: Result<(CronSchedule, String), String>) -> Result<
    (ScheduleView, Seq<char>),
    Seq<char>,
> {
    match r {
        Ok((schedule, prompt)) => Ok((schedule@, prompt@)),
        Err(reason) => Err(reason@),
    }
}

/// The instant of the one-shot schedule in the result of reading an `add`
/// command.
pub open spec fn add_instant(r: Result<(ScheduleView, Seq<char>), Seq<char>>) -> Option<u64> {
    match r {
        Ok((ScheduleView::At(ts), _)) => Some(ts),
        _ => None,
    }
}

/// The first `n` of `parts` with one space between them.
fn join_words(parts: &Vec<Vec<char>>, n: usize) -> (r: String)
    requires
        1 <= n <= parts.len(),
    ensures
        r@ == spaced(parts@.map_values(|p: Vec<char>| p@), n as nat),
{
    let ghost words = parts@.map_values(|p: Vec<char>| p@);
    let mut out: Vec<char> = Vec::new();
    push_all(&mut out, parts[0].as_slice());
    let mut i: usize = 1;
    assert(out@ == words[0]);
    while i < n
        invariant
            1 <= i <= n <= parts.len(),
            words == parts@.map_values(|p: Vec<char>| p@),
            out@ == spaced(words, i as nat),
        decreases n - i,
    {
        push_str(&mut out, " ");
        push_all(&mut out, parts[i].as_slice());
        i += 1;
    }
    string_of(out.as_slice())
}

/// Reads the text of an `add` command: a schedule followed by a prompt.
///
/// See [`parse_add_spec`]. For a one-shot schedule the calendar decides
/// which instant is meant.
pub fn parse_add_command(input: &str) -> (r: Result<(CronSchedule, String), String>)
    ensures
        add_result_view(r) == parse_add_spec(input@, add_instant(add_result_view(r))),
{
    let raw = chars_of(input);
    let t = trimmed(raw.as_slice());
    if t.len() == 0 {
        return Err(USAGE_ADD.to_owned());
    }
    if starts_with_str(t.as_slice(), "every ") {
        let parts = split_n(t.as_slice(), ' ', 3);
        if parts.len() < 3 {
            return Err(USAGE_ADD_EVERY.to_owned());
        }
        let text = join_words(&parts, 2);
        return match CronSchedule::parse(text.as_str()) {
            Ok(schedule) => Ok((schedule, string_of(parts[2].as_slice()))),
            Err(reason) => Err(reason),
        };
    }
    if starts_with_str(t.as_slice(), "at ") {
        let parts = split_n(t.as_slice(), ' ', 4);
        if parts.len() < 4 {
            return Err(USAGE_ADD_AT.to_owned());
        }
        let text = join_words(&parts, 3);
        return match CronSchedule::parse(text.as_str()) {
            Ok(schedule) => Ok((schedule, string_of(parts[3].as_slice()))),
            Err(reason) => Err(reason),
        };
    }
    let parts = split_n(t.as_slice(), ' ', 6);
    if parts.len() >= 6 {
        let text = join_words(&parts, 5);
        match CronSchedule::parse(text.as_str()) {
            Ok(schedule) => {
                return Ok((schedule, string_of(parts[5].as_slice())));
            },
            Err(_) => {},
        }
    }
    Err(USAGE_SCHEDULES.to_owned())
}

// ---------------------------------------------------------------------------
// The life of a job
// ---------------------------------------------------------------------------

/// How a run ended.
pub enum RunOutcome {
    /// The assistant answered with this text.
    Success(String),
    /// The run failed for this reason.
    Failure(String),
}

impl RunOutcome {
    /// The status that the outcome leaves on the job.
    pub open spec fn status(self) -> JobStatus {
        match self {
            RunOutcome::Success(_) => JobStatus::Success,
            RunOutcome::Failure(reason) => JobStatus::Failed(reason),
        }
    }
}

/// A job keeps the rule of the table: while it is disabled it has no next
/// run time.
pub open spec fn settled(job: CronJob) -> bool {
    !job.enabled ==> job.state.next_run_at is None
}

/// The count of failures after a run with the given status.
pub open spec fn failures_after(count: u32, status: JobStatus) -> u32 {
    match status {
        JobStatus::Success => 0,
        JobStatus::Failed(_) => if count < u32::MAX {
            (count + 1) as u32
        } else {
            count
        },
        _ => count,
    }
}

/// The job as it is after a run that ended at `end_ms` and took
/// `duration_ms`, where `next` is the next due time of its schedule counted
/// from `end_ms`.
///
/// A one-shot job is disabled whatever the outcome; a job that is disabled
/// gets no next run time.
pub open spec fn completed(
    job: CronJob,
    end_ms: u64,
    duration_ms: u64,
    status: JobStatus,
    next: Option<u64>,
) -> CronJob {
    let enabled = job.enabled && !(job.schedule@ is At);
    CronJob {
        enabled,
        state: CronJobState {
            next_run_at: if enabled {
                next
            } else {
                None
            },
            last_run_at: Some(end_ms),
            last_status: status,
            last_duration_ms: Some(duration_ms),
            failure_count: failures_after(job.state.failure_count, status),
        },
        ..job
    }
}

/// The job after its owner switched it on or off at `now_ms`, where `next`
/// is the next due time of its schedule counted from `now_ms`.
pub open spec fn toggled(job: CronJob, next: Option<u64>) -> CronJob {
    CronJob {
        enabled: !job.enabled,
        state: CronJobState {
            next_run_at: if job.enabled {
                None
            } else {
                next
            },
            ..job.state
        },
        ..job
    }
}

/// Time from `start_ms` to `end_ms`, 0 where the clock went backwards.
pub open spec fn elapsed(start_ms: u64, end_ms: u64) -> u64 {
    if end_ms >= start_ms {
        (end_ms - start_ms) as u64
    } else {
        0
    }
}

/// The text sent to the owner of a job after a run.
pub open spec fn result_text(name: Seq<char>, outcome: RunOutcome) -> Seq<char> {
    match outcome {
        RunOutcome::Success(response) => "[Cron: "@ + name + "]\n\n"@ + response@,
        RunOutcome::Failure(reason) => "[Cron: "@ + name + " FAILED]\n\nError: "@ + reason@,
    }
}

/// The text sent to the owner of a job after a run.
pub fn result_message(name: &str, outcome: &RunOutcome) -> (r: String)
    ensures
        r@ == result_text(name@, *outcome),
{
    let mut out: Vec<char> = Vec::new();
    push_str(&mut out, "[Cron: ");
    push_str(&mut out, name);
    match outcome {
        RunOutcome::Success(response) => {
            push_str(&mut out, "]\n\n");
            push_str(&mut out, response.as_str());
        },
        RunOutcome::Failure(reason) => {
            push_str(&mut out, " FAILED]\n\nError: ");
            push_str(&mut out, reason.as_str());
        },
    }
    string_of(out.as_slice())
}

/// Marks the job `id` as running and takes its next run time away. Returns
/// whether there is such a job.
pub fn mark_running(store: &mut CronStore, id: &str) -> (found: bool)
    requires
        old(store).wf(),
    ensures
        final(store).wf(),
        found == old(store)@.contains_key(id@),
        found ==> final(store)@ == old(store)@.insert(id@, started(old(store)@[id@])),
        found ==> final(store).ids() == old(store).ids(),
        !found ==> *final(store) == *old(store),
{
    match store.get_mut(id) {
        Some(job) => {
            job.state.last_status = JobStatus::Running;
            job.state.next_run_at = None;
            true
        },
        None => false,
    }
}

/// Records the end of a run of the job `id` at `end_ms`. Returns whether
/// there is such a job.
///
/// The job becomes [`completed`]: for a one-shot or interval schedule the
/// next run time is counted from `end_ms`; for a cron schedule the calendar
/// gives it.
pub fn record_completion(
    store: &mut CronStore,
    id: &str,
    end_ms: u64,
    duration_ms: u64,
    status: JobStatus,
) -> (found: bool)
    requires
        old(store).wf(),
    ensures
        final(store).wf(),
        found == old(store)@.contains_key(id@),
        !found ==> *final(store) == *old(store),
        found ==> final(store).ids() == old(store).ids() && final(store)@.contains_key(id@)
            && final(store)@ == old(store)@.insert(
            id@,
            completed(
                old(store)@[id@],
                end_ms,
                duration_ms,
                status,
                final(store)@[id@].state.next_run_at,
            ),
        ),
        found && !(old(store)@[id@].schedule@ is Cron) ==> final(store)@[id@] == completed(
            old(store)@[id@],
            end_ms,
            duration_ms,
            status,
            next_run_spec(old(store)@[id@].schedule@, end_ms),
        ),
{
    match store.get_mut(id) {
        Some(job) => {
            let ghost before = *job;
            job.state.last_run_at = Some(end_ms);
            job.state.last_duration_ms = Some(duration_ms);
            match status {
                JobStatus::Failed(reason) => {
                    job.state.last_status = JobStatus::Failed(reason);
                    if job.state.failure_count < u32::MAX {
                        job.state.failure_count = job.state.failure_count + 1;
                    }
                },
                JobStatus::Success => {
                    job.state.last_status = JobStatus::Success;
                    job.state.failure_count = 0;
                },
                other => {
                    job.state.last_status = other;
                },
            }
            let one_shot = match job.schedule {
                CronSchedule::At(_) => true,
                _ => false,
            };
            if one_shot {
                job.enabled = false;
            }
            if job.enabled {
                job.update_next_run(end_ms);
            } else {
                job.state.next_run_at = None;
            }
            assert(*job == completed(before, end_ms, duration_ms, status, job.state.next_run_at));
            true
        },
        None => false,
    }
}

/// What switching the job `id` on or off for a caller at `now_ms` does.
///
/// A caller who has no such job is told so and nothing changes. The caller's
/// job is [`toggled`]: switched off it loses its next run time; switched on
/// it is scheduled from `now_ms`, by the calendar where its schedule is a
/// cron expression.
pub open spec fn toggle_outcome(
    pre: CronStore,
    post: CronStore,
    r: Result<bool, ServiceError>,
    id: Seq<char>,
    channel: Seq<char>,
    user_id: Seq<char>,
    now_ms: u64,
) -> bool {
    match own_job(pre@, id, channel, user_id) {
        None => post == pre && (r matches Err(ServiceError::JobNotFound(missing)) && missing@
            == id),
        Some(job) => {
            &&& r == Ok::<bool, ServiceError>(!job.enabled)
            &&& post.ids() == pre.ids()
            &&& post@.contains_key(id)
            &&& post@ == pre@.insert(id, toggled(job, post@[id].state.next_run_at))
            &&& !job.enabled && !(job.schedule@ is Cron) ==> post@[id].state.next_run_at
                == next_run_spec(job.schedule@, now_ms)
        },
    }
}

/// Switches the job `id` on or off for a caller at `now_ms` and tells
/// whether it is now on.
pub fn toggle_job(store: &mut CronStore, id: &str, channel: &str, user_id: &str, now_ms: u64) -> (r:
    Result<bool, ServiceError>)
    requires
        old(store).wf(),
    ensures
        final(store).wf(),
        toggle_outcome(*old(store), *final(store), r, id@, channel@, user_id@, now_ms),
{
    let owned = match store.get(id, channel, user_id) {
        Some(_) => true,
        None => false,
    };
    if !owned {
        return Err(ServiceError::JobNotFound(id.to_owned()));
    }
    match store.get_mut(id) {
        Some(job) => {
            let ghost before = *job;
            let on = !job.enabled;
            job.enabled = on;
            if on {
                job.update_next_run(now_ms);
            } else {
                job.state.next_run_at = None;
            }
            assert(*job == toggled(before, job.state.next_run_at));
            Ok(on)
        },
        None => Err(ServiceError::JobNotFound(id.to_owned())),
    }
}

/// Copies of the jobs that a list of references points to.
pub fn copies_of(found: &Vec<&CronJob>) -> (r: Vec<CronJob>)
    ensures
        r@ == pointees(found@),
{
    let mut out: Vec<CronJob> = Vec::new();
    let mut i: usize = 0;
    while i < found.len()
        invariant
            i <= found@.len(),
            out@ == pointees(found@).take(i as int),
        decreases found@.len() - i,
    {
        out.push(found[i].clone());
        i += 1;
    }
    assert(pointees(found@).take(found@.len() as int) == pointees(found@));
    out
}

// ---------------------------------------------------------------------------
// The scheduler
// ---------------------------------------------------------------------------

/// Why the scheduler refused a request.
#[derive(Debug)]
pub enum ServiceError {
    /// The caller has no job with this identifier.
    JobNotFound(String),
    /// The job belongs to someone else.
    NotOwner,
}

impl ServiceError {
    /// The refusal in words.
    pub open spec fn text(self) -> Seq<char> {
        match self {
            ServiceError::JobNotFound(id) => "Job not found: "@ + id@,
            ServiceError::NotOwner => "You don't own this job"@,
        }
    }

    /// The refusal in words.
    pub fn message(&self) -> (r: String)
        ensures
            r@ == self.text(),
    {
        let mut out: Vec<char> = Vec::new();
        match self {
            ServiceError::JobNotFound(id) => {
                push_str(&mut out, "Job not found: ");
                push_str(&mut out, id.as_str());
            },
            ServiceError::NotOwner => {
                push_str(&mut out, "You don't own this job");
            },
        }
        string_of(out.as_slice())
    }
}

/// The scheduler: a clock, the job table and the settings.
///
/// There is one way to run a job, whether a tick found it due or its owner
/// asked for it: [`CronService::begin`], the run itself, then
/// [`CronService::finish`].
pub struct CronService<C: Clock> {
    pub clock: C,
    pub store: CronStore,
    pub config: CronConfig,
    /// Whether the scheduler has been told to stop.
    pub stopped: bool,
}

impl<C: Clock> CronService<C> {
    /// A scheduler over the given table.
    pub fn new(clock: C, config: CronConfig, store: CronStore) -> (r: Self)
        ensures
            r.clock == clock,
            r.config == config,
            r.store == store,
            !r.stopped,
    {
        CronService { clock, store, config, stopped: false }
    }

    /// Tells the scheduler to stop: the loop that drives it ends after the
    /// tick it is in. Runs that have begun are left to finish.
    pub fn stop(&mut self)
        ensures
            final(self).stopped,
            final(self).store == old(self).store,
            final(self).config == old(self).config,
            final(self).clock == old(self).clock,
    {
        self.stopped = true;
    }

    /// Puts a table that was read afresh in place of the current one.
    pub fn reload(&mut self, store: CronStore)
        ensures
            final(self).store == store,
            final(self).stopped == old(self).stopped,
            final(self).config == old(self).config,
            final(self).clock == old(self).clock,
    {
        self.store = store;
    }

    /// Creates a job, scheduled from the clock's reading, and adds it.
    pub fn add(
        &mut self,
        name: String,
        prompt: String,
        schedule: CronSchedule,
        channel: String,
        user_id: String,
    ) -> (id: JobId)
        requires
            old(self).store.wf(),
        ensures
            final(self).store.wf(),
            final(self).store@.contains_key(id@),
            final(self).store@ == old(self).store@.insert(id@, final(self).store@[id@]),
            ({
                let job = final(self).store@[id@];
                &&& job.id@ == id@
                &&& job == CronJob::created(
                    job.id,
                    name,
                    prompt,
                    schedule,
                    channel,
                    user_id,
                    job.created_at,
                    job.state.next_run_at,
                )
                &&& !(schedule@ is Cron) ==> job.state.next_run_at
                    == next_run_spec(schedule@, job.created_at)
            }),
    {
        let now = self.clock.now_millis();
        let id = generate_job_id();
        let job = CronJob::with_id(id, name, prompt, schedule, channel, user_id, now);
        self.store.add(job)
    }

    /// Removes a job for its owner. See [`CronStore::remove`].
    pub fn remove(&mut self, id: &str, channel: &str, user_id: &str) -> (r: Result<
        Option<CronJob>,
        StoreError,
    >)
        requires
            old(self).store.wf(),
        ensures
            final(self).store.wf(),
            r == removal(old(self).store@, id@, channel@, user_id@),
            r matches Ok(Some(_)) ==> final(self).store@ == old(self).store@.remove(id@),
            !(r matches Ok(Some(_))) ==> final(self).store == old(self).store,
    {
        self.store.remove(id, channel, user_id)
    }

    /// Copies of the jobs of one owner, in table order.
    pub fn list(&self, channel: &str, user_id: &str) -> (r: Vec<CronJob>)
        ensures
            r@ == self.store.job_seq().filter(owner_is(channel@, user_id@)),
    {
        copies_of(&self.store.list_for_user(channel, user_id))
    }

    /// A copy of the job `id`, for its owner.
    pub fn status(&self, id: &str, channel: &str, user_id: &str) -> (r: Option<CronJob>)
        requires
            self.store.wf(),
        ensures
            r == own_job(self.store@, id@, channel@, user_id@),
    {
        match self.store.get(id, channel, user_id) {
            Some(job) => Some(job.clone()),
            None => None,
        }
    }

    /// Switches a job on or off for its owner and tells whether it is now
    /// on. A job switched off loses its next run time; a job switched on is
    /// scheduled from the clock's reading. See [`toggle_job`].
    pub fn toggle(&mut self, id: &str, channel: &str, user_id: &str) -> (r: Result<
        bool,
        ServiceError,
    >)
        requires
            old(self).store.wf(),
        ensures
            final(self).store.wf(),
            exists|now_ms: u64| #[trigger]
                toggle_outcome(
                    old(self).store,
                    final(self).store,
                    r,
                    id@,
                    channel@,
                    user_id@,
                    now_ms,
                ),
    {
        let now = self.clock.now_millis();
        let r = toggle_job(&mut self.store, id, channel, user_id, now);
        assert(toggle_outcome(old(self).store, self.store, r, id@, channel@, user_id@, now));
        r
    }

    /// Looks for due jobs at the clock's reading `now`: every due job is
    /// marked running and loses its next run time, and a copy of each, as it
    /// was when it was found, is handed out for running.
    pub fn tick(&mut self) -> (r: (u64, Vec<CronJob>))
        requires
            old(self).store.wf(),
        ensures
            final(self).store.wf(),
            final(self).store.ids() == old(self).store.ids(),
            r.1@ == old(self).store.job_seq().filter(due_by(r.0)),
            final(self).store.job_seq() == start_all(old(self).store.job_seq(), r.0),
    {
        let now = self.clock.now_millis();
        let due = start_due_jobs(&mut self.store, now);
        (now, due)
    }

    /// Begins a run of `job`: the job is marked running in the table and the
    /// clock's reading is handed back as the start time.
    pub fn begin(&mut self, job: &CronJob) -> (start_ms: u64)
        requires
            old(self).store.wf(),
        ensures
            final(self).store.wf(),
            final(self).store.ids() == old(self).store.ids(),
            old(self).store@.contains_key(job.id@) ==> final(self).store@
                == old(self).store@.insert(job.id@, started(old(self).store@[job.id@])),
            !old(self).store@.contains_key(job.id@) ==> final(self).store == old(self).store,
    {
        let start = self.clock.now_millis();
        mark_running(&mut self.store, job.id.as_str());
        start
    }

    /// Ends a run of `job` that began at `start_ms`: the outcome is recorded
    /// in the table at the clock's reading, and the text to send to the
    /// owner is handed back where the job asks for one.
    pub fn finish(&mut self, job: &CronJob, start_ms: u64, outcome: RunOutcome) -> (r: Option<
        String,
    >)
        requires
            old(self).store.wf(),
        ensures
            final(self).store.wf(),
            final(self).store.ids() == old(self).store.ids(),
            job.notify ==> r is Some && r->0@ == result_text(job.name@, outcome),
            !job.notify ==> r is None,
            !old(self).store@.contains_key(job.id@) ==> final(self).store == old(self).store,
            old(self).store@.contains_key(job.id@) ==> final(self).store@.contains_key(job.id@)
                && ({
                let after = final(self).store@[job.id@];
                &&& after.state.last_run_at is Some
                &&& final(self).store@ == old(self).store@.insert(
                    job.id@,
                    completed(
                        old(self).store@[job.id@],
                        after.state.last_run_at->0,
                        elapsed(start_ms, after.state.last_run_at->0),
                        outcome.status(),
                        after.state.next_run_at,
                    ),
                )
                &&& !(old(self).store@[job.id@].schedule@ is Cron) ==> after == completed(
                    old(self).store@[job.id@],
                    after.state.last_run_at->0,
                    elapsed(start_ms, after.state.last_run_at->0),
                    outcome.status(),
                    next_run_spec(
                        old(self).store@[job.id@].schedule@,
                        after.state.last_run_at->0,
                    ),
                )
            }),
    {
        let end = self.clock.now_millis();
        let duration: u64 = if end >= start_ms {
            end - start_ms
        } else {
            0
        };
        let message = if job.notify {
            Some(result_message(job.name.as_str(), &outcome))
        } else {
            None
        };
        let status = match outcome {
            RunOutcome::Success(_) => JobStatus::Success,
            RunOutcome::Failure(reason) => JobStatus::Failed(reason),
        };
        record_completion(&mut self.store, job.id.as_str(), end, duration, status);
        message
    }
}

/// Marks every job that is due at `now_ms` as running, takes its next run
/// time away, and hands out a copy of each as it was.
pub fn start_due_jobs(store: &mut CronStore, now_ms: u64) -> (due: Vec<CronJob>)
    requires
        old(store).wf(),
    ensures
        final(store).wf(),
        final(store).ids() == old(store).ids(),
        due@ == old(store).job_seq().filter(due_by(now_ms)),
        final(store).job_seq() == start_all(old(store).job_seq(), now_ms),
{
    let due = copies_of(&store.get_due_jobs(now_ms));
    store.start_where_due(now_ms);
    due
}

// ---------------------------------------------------------------------------
// Laws
// ---------------------------------------------------------------------------

/// A job that has been started is not due at any time, so no two runs of one
/// job overlap.
pub proof fn law_running_job_is_not_due(job: CronJob, now_ms: u64)
    ensures
        !started(job).due_at(now_ms),
{
}

/// After a look for due jobs, no job of the table is due at the time of the
/// look.
pub proof fn law_tick_leaves_nothing_due(jobs: Seq<CronJob>, now_ms: u64)
    ensures
        start_all(jobs, now_ms).filter(due_by(now_ms)).len() == 0,
{
    let after = start_all(jobs, now_ms);
    let left = after.filter(due_by(now_ms));
    if left.len() > 0 {
        after.lemma_filter_pred(due_by(now_ms), 0);
        after.lemma_filter_contains_rev(due_by(now_ms), left[0]);
        let k = choose|k: int| 0 <= k < after.len() && after[k] == left[0];
        assert(after[k] == if jobs[k].due_at(now_ms) {
            started(jobs[k])
        } else {
            jobs[k]
        });
    }
}

/// A one-shot job is disabled after its run, whether the run succeeded or
/// failed, and is never due again.
pub proof fn law_one_shot_job_is_spent(
    job: CronJob,
    end_ms: u64,
    duration_ms: u64,
    status: JobStatus,
    next: Option<u64>,
    now_ms: u64,
)
    requires
        job.schedule@ is At,
    ensures
        !completed(job, end_ms, duration_ms, status, next).enabled,
        completed(job, end_ms, duration_ms, status, next).state.next_run_at is None,
        !completed(job, end_ms, duration_ms, status, next).due_at(now_ms),
{
}

/// A failed run is recorded and counted, and does not disable a recurring
/// job; a successful run sets the count of failures back to 0.
pub proof fn law_outcome_is_recorded(
    job: CronJob,
    end_ms: u64,
    duration_ms: u64,
    status: JobStatus,
    next: Option<u64>,
)
    requires
        status is Success || status is Failed,
    ensures
        completed(job, end_ms, duration_ms, status, next).state.last_status == status,
        completed(job, end_ms, duration_ms, status, next).state.last_run_at == Some(end_ms),
        status is Success ==> completed(job, end_ms, duration_ms, status, next).state.failure_count
            == 0,
        status is Failed && job.state.failure_count < u32::MAX ==> completed(
            job,
            end_ms,
            duration_ms,
            status,
            next,
        ).state.failure_count == job.state.failure_count + 1,
        !(job.schedule@ is At) ==> completed(job, end_ms, duration_ms, status, next).enabled
            == job.enabled,
{
}

/// Every transition of a job keeps the rule that a disabled job has no next
/// run time.
pub proof fn law_transitions_keep_jobs_settled(
    job: CronJob,
    end_ms: u64,
    duration_ms: u64,
    status: JobStatus,
    next: Option<u64>,
)
    requires
        settled(job),
    ensures
        settled(started(job)),
        settled(completed(job, end_ms, duration_ms, status, next)),
        settled(toggled(job, next)),
{
}

/// An interval job that ran is due again one interval after the end of the
/// run, not after the time at which it had been due.
pub proof fn law_interval_counts_from_completion(
    job: CronJob,
    interval: u64,
    end_ms: u64,
    duration_ms: u64,
    status: JobStatus,
)
    requires
        job.enabled,
        job.schedule@ == ScheduleView::Every(interval),
        end_ms + interval <= u64::MAX,
    ensures
        completed(
            job,
            end_ms,
            duration_ms,
            status,
            next_run_spec(job.schedule@, end_ms),
        ).state.next_run_at == Some((end_ms + interval) as u64),
{
}

} // verus!
