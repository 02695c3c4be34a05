//! The `/cron` commands: list, add, remove, run, pause and resume, each on
//! the caller's own jobs, named by identifier or by a prefix of it.

use crate::cron::schedule::{format_duration_spec, CronSchedule, ScheduleView};
use crate::trusted::CALENDAR_LIMIT_MS;
use crate::cron::store::{
    owner_is, pointees, removal, short_form, CronJob, CronJobState, CronStore,
};
use crate::cron::{
    add_instant, add_result_view, format_timestamp, parse_add_command, parse_add_spec, settled,
    truncate_for_name, truncate_spec,
};
use crate::text::{
    chars_of, is_text, push_all, push_str, split_limit, split_n, starts_with, string_of, trim,
    trimmed,
};
use vstd::prelude::*;

verus! {

/// What came of reading a message as a command.
#[derive(Debug)]
pub enum CommandResult {
    /// The message is no command.
    NotACommand,
    /// The command was carried out; this is the answer for the user.
    Response(String),
    /// The job with this identifier is to be run now.
    CronRun(String),
}

// ---------------------------------------------------------------------------
// Finding a job by identifier or prefix
// ---------------------------------------------------------------------------

/// The jobs whose identifier begins with `prefix`.
pub open spec fn id_begins_with(prefix: Seq<char>) -> spec_fn(CronJob) -> bool {
    |job: CronJob| prefix.is_prefix_of(job.id@)
}

/// The caller's jobs whose identifier begins with `prefix`, in table order.
pub open spec fn prefix_matches(
    jobs: Seq<CronJob>,
    channel: Seq<char>,
    user_id: Seq<char>,
    prefix: Seq<char>,
) -> Seq<CronJob> {
    jobs.filter(owner_is(channel, user_id)).filter(id_begins_with(prefix))
}

/// The short identifiers of the first `n` of `jobs`, with `, ` between them.
pub open spec fn short_ids(jobs: Seq<CronJob>, n: nat) -> Seq<char>
    decreases n,
{
    if n == 0 || n > jobs.len() {
        Seq::empty()
    } else if n == 1 {
        short_form(jobs[0].id@)
    } else {
        short_ids(jobs, (n - 1) as nat) + ", "@ + short_form(jobs[n - 1].id@)
    }
}

/// The message for an identifier that names none of the caller's jobs.
pub open spec fn not_found_text(id: Seq<char>) -> Seq<char> {
    "Job not found: "@ + id
}

/// The message for a prefix that several of the caller's jobs share.
pub open spec fn ambiguous_text(id: Seq<char>, matches: Seq<CronJob>) -> Seq<char> {
    "Ambiguous job ID '"@ + id + "'. Matches: "@ + short_ids(matches, matches.len())
}

/// The job that `id_or_prefix` names among the caller's jobs.
///
/// A key of the table that belongs to the caller names its job. Otherwise
/// the text is taken as a prefix: it names the one job of the caller whose
/// identifier begins with it; it is an error where there is none and where
/// there are several.
pub open spec fn find_job_spec(
    table: Map<Seq<char>, CronJob>,
    jobs: Seq<CronJob>,
    channel: Seq<char>,
    user_id: Seq<char>,
    id_or_prefix: Seq<char>,
) -> Result<Seq<char>, Seq<char>> {
    let id = trim(id_or_prefix);
    let matches = prefix_matches(jobs, channel, user_id, id);
    if table.contains_key(id) && table[id].owned_by(channel, user_id) {
        Ok(id)
    } else if matches.len() == 0 {
        Err(not_found_text(id))
    } else if matches.len() == 1 {
        Ok(matches[0].id@)
    } else {
        Err(ambiguous_text(id, matches))
    }
}

/// The view of a text result.
pub open spec fn text_result_view(r: Result<String, String>) -> Result<Seq<char>, Seq<char>> {
    match r {
        Ok(t) => Ok(t@),
        Err(e) => Err(e@),
    }
}

/// Finds the job that `id_or_prefix` names among the caller's jobs.
pub fn find_job_id(store: &CronStore, channel: &str, user_id: &str, id_or_prefix: &str) -> (r:
    Result<String, String>)
    requires
        store.wf(),
    ensures
        text_result_view(r) == find_job_spec(
            store@,
            store.job_seq(),
            channel@,
            user_id@,
            id_or_prefix@,
        ),
{
    let raw = chars_of(id_or_prefix);
    let id = trimmed(raw.as_slice());
    let id_text = string_of(id.as_slice());
    if store.get(id_text.as_str(), channel, user_id).is_some() {
        return Ok(id_text);
    }
    let owned = store.list_for_user(channel, user_id);
    let mut matches: Vec<&CronJob> = Vec::new();
    let mut i: usize = 0;
    proof {
        reveal(Seq::filter);
    }
    while i < owned.len()
        invariant
            i <= owned@.len(),
            pointees(matches@) == pointees(owned@).take(i as int).filter(id_begins_with(id@)),
        decreases owned@.len() - i,
    {
        let job = owned[i];
        proof {
            reveal(Seq::filter);
            assert(pointees(owned@).take(i + 1).drop_last() == pointees(owned@).take(i as int));
        }
        let job_id = chars_of(job.id.as_str());
        if starts_with(job_id.as_slice(), id.as_slice()) {
            let ghost before = pointees(matches@);
            matches.push(job);
            assert(pointees(matches@) == before.push(*job));
        }
        i += 1;
    }
    assert(pointees(owned@).take(owned@.len() as int) == pointees(owned@));
    if matches.len() == 0 {
        let mut out: Vec<char> = Vec::new();
        push_str(&mut out, "Job not found: ");
        push_all(&mut out, id.as_slice());
        return Err(string_of(out.as_slice()));
    }
    if matches.len() == 1 {
        return Ok(matches[0].id.clone());
    }
    let mut out: Vec<char> = Vec::new();
    push_str(&mut out, "Ambiguous job ID '");
    push_all(&mut out, id.as_slice());
    push_str(&mut out, "'. Matches: ");
    let ghost head = out@;
    push_str(&mut out, matches[0].short_id());
    let mut k: usize = 1;
    while k < matches.len()
        invariant
            1 <= k <= matches@.len(),
            out@ == head + short_ids(pointees(matches@), k as nat),
        decreases matches@.len() - k,
    {
        push_str(&mut out, ", ");
        push_str(&mut out, matches[k].short_id());
        k += 1;
    }
    Err(string_of(out.as_slice()))
}

// ---------------------------------------------------------------------------
// Texts
// ---------------------------------------------------------------------------

/// The answer to `list` for a caller without jobs.
pub const NO_JOBS: &'static str = "No scheduled jobs.\n\nUse /cron add to create one. Try /cron help for usage.";

/// The first line of the answer to `list`.
pub const LIST_HEAD: &'static str = "Your scheduled jobs:\n";

/// The answer to `add` without arguments.
pub const ADD_USAGE: &'static str = "Usage: /cron add <schedule> <prompt>\n\nExamples:\n/cron add every 1h Check my emails\n/cron add every 10s Say hello\n/cron add 0 9 * * * Good morning!";

/// The answer to `remove` without a job.
pub const REMOVE_USAGE: &'static str = "Usage: /cron remove <job-id>";

/// The answer to `run` without a job.
pub const RUN_USAGE: &'static str = "Usage: /cron run <job-id>";

/// The answer to `pause` without a job.
pub const PAUSE_USAGE: &'static str = "Usage: /cron pause <job-id>";

/// The answer to `resume` without a job.
pub const RESUME_USAGE: &'static str = "Usage: /cron resume <job-id>";

/// The answer to anything that is none of the commands.
pub const HELP: &'static str = "Cron job commands:\n\n/cron list - List your scheduled jobs\n/cron add <schedule> <prompt> - Create a new job\n/cron remove <job-id> - Delete a job\n/cron run <job-id> - Run immediately (for testing)\n/cron pause <job-id> - Pause a job\n/cron resume <job-id> - Resume a paused job\n\nSchedule formats:\n• every 10s / every 5m / every 1h - Recurring interval\n• at 2024-01-28 14:00 - One-time execution\n• 0 9 * * * - Cron expression (9 AM daily)\n\nExamples:\n/cron add every 1h Check my inbox\n/cron add every 10s Say hello\n/cron add 0 9 * * * Good morning!";

/// A job named in an answer: its short identifier in brackets and its name
/// in quotes, after `verb`.
pub open spec fn job_label(verb: Seq<char>, job: CronJob) -> Seq<char> {
    verb + " job ["@ + short_form(job.id@) + "] \""@ + job.name@ + "\""@
}

/// The entry of one job in the answer to `list`, given how the calendar
/// renders its schedule and its next run.
pub open spec fn job_entry_text(job: CronJob, schedule: Seq<char>, next: Seq<char>) -> Seq<char> {
    "\n["@ + short_form(job.id@) + "] "@ + job.name@ + (if job.enabled {
        Seq::<char>::empty()
    } else {
        " (paused)"@
    }) + "\n  Schedule: "@ + schedule + "\n  Status: "@ + job.state.last_status.name()
        + " | Next: "@ + next + "\n"@
}

/// The answer to a successful `add`, given how the calendar renders the
/// schedule and the next run.
pub open spec fn created_text(job: CronJob, schedule: Seq<char>, next: Seq<char>) -> Seq<char> {
    job_label("Created"@, job) + "\nSchedule: "@ + schedule + "\nNext run: "@ + next
        + "\n\nUse /cron run "@ + short_form(job.id@) + " to test it now!"@
}

/// The answer to a successful `resume`, given how the calendar renders the
/// next run.
pub open spec fn resumed_text(job: CronJob, next: Seq<char>) -> Seq<char> {
    job_label("Resumed"@, job) + "\nNext run: "@ + next
}

/// Writes `verb`, the job's short identifier in brackets and its name in
/// quotes.
fn push_job_label(out: &mut Vec<char>, verb: &str, job: &CronJob)
    ensures
        final(out)@ == old(out)@ + job_label(verb@, *job),
{
    let ghost before = out@;
    push_str(out, verb);
    push_str(out, " job [");
    push_str(out, job.short_id());
    push_str(out, "] \"");
    push_str(out, job.name.as_str());
    push_str(out, "\"");
    assert(out@ == before + job_label(verb@, *job));
}

/// The entry of one job in the answer to `list`.
pub fn job_entry(job: &CronJob, schedule: &str, next: &str) -> (r: String)
    ensures
        r@ == job_entry_text(*job, schedule@, next@),
{
    let mut out: Vec<char> = Vec::new();
    push_str(&mut out, "\n[");
    push_str(&mut out, job.short_id());
    push_str(&mut out, "] ");
    push_str(&mut out, job.name.as_str());
    if !job.enabled {
        push_str(&mut out, " (paused)");
    }
    push_str(&mut out, "\n  Schedule: ");
    push_str(&mut out, schedule);
    push_str(&mut out, "\n  Status: ");
    push_str(&mut out, job.state.last_status.as_str());
    push_str(&mut out, " | Next: ");
    push_str(&mut out, next);
    push_str(&mut out, "\n");
    string_of(out.as_slice())
}

/// The answer to a successful `add`.
pub fn created_message(job: &CronJob, schedule: &str, next: &str) -> (r: String)
    ensures
        r@ == created_text(*job, schedule@, next@),
{
    let mut out: Vec<char> = Vec::new();
    push_job_label(&mut out, "Created", job);
    push_str(&mut out, "\nSchedule: ");
    push_str(&mut out, schedule);
    push_str(&mut out, "\nNext run: ");
    push_str(&mut out, next);
    push_str(&mut out, "\n\nUse /cron run ");
    push_str(&mut out, job.short_id());
    push_str(&mut out, " to test it now!");
    string_of(out.as_slice())
}

/// The answer to a successful `resume`.
pub fn resumed_message(job: &CronJob, next: &str) -> (r: String)
    ensures
        r@ == resumed_text(*job, next@),
{
    let mut out: Vec<char> = Vec::new();
    push_job_label(&mut out, "Resumed", job);
    push_str(&mut out, "\nNext run: ");
    push_str(&mut out, next);
    string_of(out.as_slice())
}

/// A literal text as a response.
fn respond(text: &str) -> (r: Result<CommandResult, String>)
    ensures
        command_view(r) == Ok::<CommandView, Seq<char>>(CommandView::Response(text@)),
{
    Ok(CommandResult::Response(text.to_owned()))
}

// ---------------------------------------------------------------------------
// The commands
// ---------------------------------------------------------------------------

/// The mathematical value of a [`CommandResult`].
pub enum CommandView {
    NotACommand,
    Response(Seq<char>),
    CronRun(Seq<char>),
}

impl View for CommandResult {
    type V = CommandView;

    open spec fn view(&self) -> CommandView {
        match self {
            CommandResult::NotACommand => CommandView::NotACommand,
            CommandResult::Response(text) => CommandView::Response(text@),
            CommandResult::CronRun(id) => CommandView::CronRun(id@),
        }
    }
}

/// The view of the result of a command.
pub open spec fn command_view(r: Result<CommandResult, String>) -> Result<CommandView, Seq<char>> {
    match r {
        Ok(result) => Ok(result@),
        Err(reason) => Err(reason@),
    }
}

/// The `/cron` commands.
#[derive(Debug, Clone, Copy, PartialEq, Eq)]
pub enum CronCommand {
    List,
    Add,
    Remove,
    Run,
    Pause,
    Resume,
    Help,
}

/// The command that a first word names; every unknown word asks for help.
pub open spec fn command_of(word: Seq<char>) -> CronCommand {
    if word == "list"@ || word == "ls"@ {
        CronCommand::List
    } else if word == "add"@ {
        CronCommand::Add
    } else if word == "remove"@ || word == "rm"@ || word == "delete"@ {
        CronCommand::Remove
    } else if word == "run"@ {
        CronCommand::Run
    } else if word == "pause"@ || word == "disable"@ {
        CronCommand::Pause
    } else if word == "resume"@ || word == "enable"@ {
        CronCommand::Resume
    } else {
        CronCommand::Help
    }
}

/// The first word of the arguments: what stands before the first space.
pub open spec fn cron_word(args: Seq<char>) -> Seq<char> {
    split_limit(args, ' ', 2)[0]
}

/// What follows the first space of the arguments.
pub open spec fn cron_rest(args: Seq<char>) -> Seq<char> {
    if split_limit(args, ' ', 2).len() > 1 {
        split_limit(args, ' ', 2)[1]
    } else {
        Seq::empty()
    }
}

/// The command that a first word names.
pub fn classify(word: &[char]) -> (r: CronCommand)
    ensures
        r == command_of(word@),
{
    if is_text(word, "list") || is_text(word, "ls") {
        CronCommand::List
    } else if is_text(word, "add") {
        CronCommand::Add
    } else if is_text(word, "remove") || is_text(word, "rm") || is_text(word, "delete") {
        CronCommand::Remove
    } else if is_text(word, "run") {
        CronCommand::Run
    } else if is_text(word, "pause") || is_text(word, "disable") {
        CronCommand::Pause
    } else if is_text(word, "resume") || is_text(word, "enable") {
        CronCommand::Resume
    } else {
        CronCommand::Help
    }
}

/// The job as it is after its owner paused it.
pub open spec fn paused(job: CronJob) -> CronJob {
    CronJob { enabled: false, state: CronJobState { next_run_at: None, ..job.state }, ..job }
}

/// The job as it is after its owner resumed it, with `next` as its next run.
pub open spec fn resumed(job: CronJob, next: Option<u64>) -> CronJob {
    CronJob { enabled: true, state: CronJobState { next_run_at: next, ..job.state }, ..job }
}

/// How the calendar shows the times of a job.
pub struct Shown {
    /// The schedule in words.
    pub schedule: Seq<char>,
    /// The next run.
    pub next: Seq<char>,
}

/// Whether a text can stand for a schedule: an interval is written in its
/// largest unit, a cron expression as it is, a one-shot schedule as `at` and
/// what the calendar makes of its instant.
pub open spec fn schedule_shown_as(schedule: ScheduleView, text: Seq<char>) -> bool {
    match schedule {
        ScheduleView::Every(ms) => text == format_duration_spec(ms),
        ScheduleView::Cron(expr) => text == expr,
        ScheduleView::At(_) => "at "@.is_prefix_of(text),
    }
}

/// Whether a text can stand for a next run: `none` where there is no next
/// run, `unknown` for an instant beyond the calendar, and else what the
/// calendar makes of the instant.
pub open spec fn next_shown_as(next: Option<u64>, none: Seq<char>, text: Seq<char>) -> bool {
    match next {
        None => text == none,
        Some(ts) => ts > CALENDAR_LIMIT_MS ==> text == "unknown"@,
    }
}

/// The entries of the first `n` jobs in the answer to `list`.
pub open spec fn entries_text(jobs: Seq<CronJob>, shown: Seq<Shown>, n: nat) -> Seq<char>
    decreases n,
{
    if n == 0 || n > jobs.len() || n > shown.len() {
        Seq::empty()
    } else {
        entries_text(jobs, shown, (n - 1) as nat) + job_entry_text(
            jobs[n - 1],
            shown[n - 1].schedule,
            shown[n - 1].next,
        )
    }
}

/// Whether `text` lists `jobs`, each with its times shown as in `shown`.
pub open spec fn lists_jobs(jobs: Seq<CronJob>, shown: Seq<Shown>, text: Seq<char>) -> bool {
    &&& shown.len() == jobs.len()
    &&& forall|i: int|
        0 <= i < jobs.len() ==> schedule_shown_as(jobs[i].schedule@, (#[trigger] shown[i]).schedule)
            && next_shown_as(jobs[i].state.next_run_at, "—"@, shown[i].next)
    &&& text == LIST_HEAD@ + entries_text(jobs, shown, jobs.len())
}

/// Whether `text` is the answer to `list` for a caller with the jobs `jobs`.
pub open spec fn answers_list(jobs: Seq<CronJob>, text: Seq<char>) -> bool {
    if jobs.len() == 0 {
        text == NO_JOBS@
    } else {
        exists|shown: Seq<Shown>| #[trigger] lists_jobs(jobs, shown, text)
    }
}

/// What `list` does: the table stays as it is; a caller without jobs is told
/// so, any other gets the list of their jobs, in table order.
pub open spec fn list_outcome(
    pre: CronStore,
    post: CronStore,
    r: Result<CommandView, Seq<char>>,
    channel: Seq<char>,
    user_id: Seq<char>,
) -> bool {
    &&& post.same_as(pre)
    &&& r matches Ok(CommandView::Response(text)) && answers_list(
        pre.job_seq().filter(owner_is(channel, user_id)),
        text,
    )
}

/// What `add` does, where `resolved` is the instant the calendar gave for a
/// one-shot schedule, `key` the identifier drawn for the job, and `shown`
/// how the calendar shows the job's times.
///
/// Without arguments the usage is shown. Arguments that are no schedule and
/// prompt are answered with the reason, and no job is made. Otherwise a job
/// is added for the caller under `key`: enabled, notifying, never run, with
/// the prompt as given and a name cut from the prompt.
pub open spec fn add_outcome(
    pre: CronStore,
    post: CronStore,
    r: Result<CommandView, Seq<char>>,
    channel: Seq<char>,
    user_id: Seq<char>,
    rest: Seq<char>,
    resolved: Option<u64>,
    key: Seq<char>,
    shown: Shown,
) -> bool {
    if rest.len() == 0 {
        post.same_as(pre) && r == Ok::<CommandView, Seq<char>>(CommandView::Response(ADD_USAGE@))
    } else {
        match parse_add_spec(rest, resolved) {
            Err(reason) => post.same_as(pre) && r == Ok::<CommandView, Seq<char>>(
                CommandView::Response("Error: "@ + reason),
            ),
            Ok((schedule, prompt)) => {
                &&& post@.contains_key(key)
                &&& post@ == pre@.insert(key, post@[key])
                &&& post@[key].id@ == key
                &&& post@[key].name@ == truncate_spec(prompt, 30)
                &&& post@[key].prompt@ == prompt
                &&& post@[key].schedule@ == schedule
                &&& post@[key].owned_by(channel, user_id)
                &&& post@[key].enabled
                &&& post@[key].notify
                &&& post@[key].state == (CronJobState {
                    next_run_at: post@[key].state.next_run_at,
                    ..CronJobState::fresh()
                })
                &&& !(schedule is Cron) ==> post@[key].state.next_run_at
                    == crate::cron::schedule::next_run_spec(schedule, post@[key].created_at)
                &&& schedule_shown_as(schedule, shown.schedule)
                &&& match schedule {
                    ScheduleView::At(ts) => ts > CALENDAR_LIMIT_MS ==> shown.next == "unknown"@,
                    _ => next_shown_as(post@[key].state.next_run_at, "soon"@, shown.next),
                }
                &&& r == Ok::<CommandView, Seq<char>>(
                    CommandView::Response(created_text(post@[key], shown.schedule, shown.next)),
                )
            },
        }
    }
}

/// What `remove` does.
///
/// Without a job the usage is shown. A text that names none or several of
/// the caller's jobs is an error. The job that it names is taken out of the
/// table.
pub open spec fn remove_outcome(
    pre: CronStore,
    post: CronStore,
    r: Result<CommandView, Seq<char>>,
    channel: Seq<char>,
    user_id: Seq<char>,
    rest: Seq<char>,
) -> bool {
    let id = trim(rest);
    if id.len() == 0 {
        post.same_as(pre) && r == Ok::<CommandView, Seq<char>>(CommandView::Response(REMOVE_USAGE@))
    } else {
        match find_job_spec(pre@, pre.job_seq(), channel, user_id, id) {
            Err(reason) => post.same_as(pre) && r == Err::<CommandView, Seq<char>>(reason),
            Ok(key) => match removal(pre@, key, channel, user_id) {
                Ok(None) => post.same_as(pre) && r == Ok::<CommandView, Seq<char>>(
                    CommandView::Response(not_found_text(id)),
                ),
                Err(_) => post.same_as(pre) && r == Err::<CommandView, Seq<char>>(
                    "You don't own this job"@,
                ),
                Ok(Some(job)) => post@ == pre@.remove(key) && r == Ok::<CommandView, Seq<char>>(
                    CommandView::Response(job_label("Removed"@, job)),
                ),
            },
        }
    }
}

/// What `run` does: the table stays as it is, and the job that the text
/// names among the caller's jobs is handed out to be run.
pub open spec fn run_outcome(
    pre: CronStore,
    post: CronStore,
    r: Result<CommandView, Seq<char>>,
    channel: Seq<char>,
    user_id: Seq<char>,
    rest: Seq<char>,
) -> bool {
    let id = trim(rest);
    &&& post.same_as(pre)
    &&& if id.len() == 0 {
        r == Ok::<CommandView, Seq<char>>(CommandView::Response(RUN_USAGE@))
    } else {
        match find_job_spec(pre@, pre.job_seq(), channel, user_id, id) {
            Err(reason) => r == Err::<CommandView, Seq<char>>(reason),
            Ok(key) => r == Ok::<CommandView, Seq<char>>(CommandView::CronRun(key)),
        }
    }
}

/// What `pause` does: the job that the text names among the caller's jobs is
/// disabled and loses its next run time.
pub open spec fn pause_outcome(
    pre: CronStore,
    post: CronStore,
    r: Result<CommandView, Seq<char>>,
    channel: Seq<char>,
    user_id: Seq<char>,
    rest: Seq<char>,
) -> bool {
    let id = trim(rest);
    if id.len() == 0 {
        post.same_as(pre) && r == Ok::<CommandView, Seq<char>>(CommandView::Response(PAUSE_USAGE@))
    } else {
        match find_job_spec(pre@, pre.job_seq(), channel, user_id, id) {
            Err(reason) => post.same_as(pre) && r == Err::<CommandView, Seq<char>>(reason),
            Ok(key) => if !pre@.contains_key(key) {
                post.same_as(pre) && r == Ok::<CommandView, Seq<char>>(
                    CommandView::Response(not_found_text(id)),
                )
            } else if !pre@[key].owned_by(channel, user_id) {
                post.same_as(pre) && r == Ok::<CommandView, Seq<char>>(
                    CommandView::Response("Job not found"@),
                )
            } else {
                post@ == pre@.insert(key, paused(pre@[key])) && r == Ok::<CommandView, Seq<char>>(
                    CommandView::Response(job_label("Paused"@, pre@[key])),
                )
            },
        }
    }
}

/// What `resume` does: the job that the text names among the caller's jobs
/// is enabled and scheduled afresh from the system clock's reading.
pub open spec fn resume_outcome(
    pre: CronStore,
    post: CronStore,
    r: Result<CommandView, Seq<char>>,
    channel: Seq<char>,
    user_id: Seq<char>,
    rest: Seq<char>,
) -> bool {
    let id = trim(rest);
    if id.len() == 0 {
        post.same_as(pre) && r == Ok::<CommandView, Seq<char>>(CommandView::Response(RESUME_USAGE@))
    } else {
        match find_job_spec(pre@, pre.job_seq(), channel, user_id, id) {
            Err(reason) => post.same_as(pre) && r == Err::<CommandView, Seq<char>>(reason),
            Ok(key) => if !pre@.contains_key(key) {
                post.same_as(pre) && r == Ok::<CommandView, Seq<char>>(
                    CommandView::Response(not_found_text(id)),
                )
            } else if !pre@[key].owned_by(channel, user_id) {
                post.same_as(pre) && r == Ok::<CommandView, Seq<char>>(
                    CommandView::Response("Job not found"@),
                )
            } else {
                &&& post@.contains_key(key)
                &&& post@ == pre@.insert(key, resumed(pre@[key], post@[key].state.next_run_at))
                &&& exists|next: Seq<char>| #[trigger]
                    next_shown_as(post@[key].state.next_run_at, "soon"@, next) && r == Ok::<
                        CommandView,
                        Seq<char>,
                    >(CommandView::Response(resumed_text(pre@[key], next)))
            },
        }
    }
}

/// How an optional next run time is shown: the calendar's rendering, or
/// `fallback` where there is none.
fn next_run_text(next: Option<u64>, fallback: &str) -> (r: String)
    ensures
        next_shown_as(next, fallback@, r@),
{
    match next {
        Some(ts) => format_timestamp(ts),
        None => fallback.to_owned(),
    }
}

/// Carries out `list`.
fn cron_list(store: &CronStore, channel: &str, user_id: &str) -> (r: Result<CommandResult, String>)
    ensures
        list_outcome(*store, *store, command_view(r), channel@, user_id@),
{
    let jobs = store.list_for_user(channel, user_id);
    if jobs.len() == 0 {
        return respond(NO_JOBS);
    }
    let mut out: Vec<char> = Vec::new();
    push_str(&mut out, LIST_HEAD);
    let ghost listed = pointees(jobs@);
    let ghost mut shown: Seq<Shown> = Seq::empty();
    let mut i: usize = 0;
    while i < jobs.len()
        invariant
            i <= jobs@.len(),
            listed == pointees(jobs@),
            shown.len() == i,
            forall|k: int|
                0 <= k < i ==> schedule_shown_as(
                    listed[k].schedule@,
                    (#[trigger] shown[k]).schedule,
                ) && next_shown_as(listed[k].state.next_run_at, "—"@, shown[k].next),
            out@ == LIST_HEAD@ + entries_text(listed.take(i as int), shown, i as nat),
        decreases jobs@.len() - i,
    {
        let job = jobs[i];
        let schedule = job.schedule.description();
        let next = next_run_text(job.state.next_run_at, "—");
        let entry = job_entry(job, schedule.as_str(), next.as_str());
        proof {
            let before = shown;
            shown = shown.push(Shown { schedule: schedule@, next: next@ });
            lemma_entries_text_grows(
                listed.take(i as int),
                before,
                listed.take(i + 1),
                shown,
                i as nat,
            );
        }
        push_str(&mut out, entry.as_str());
        i += 1;
    }
    let r = Ok(CommandResult::Response(string_of(out.as_slice())));
    proof {
        let owned = store.job_seq().filter(owner_is(channel@, user_id@));
        assert(listed == owned);
        assert(listed.take(jobs@.len() as int) == listed);
        assert(lists_jobs(owned, shown, out@));
        assert(answers_list(owned, out@));
    }
    r
}

/// The entries of the first `n` jobs depend on the first `n` jobs and what
/// is shown of them only.
proof fn lemma_entries_text_grows(
    jobs: Seq<CronJob>,
    shown: Seq<Shown>,
    more_jobs: Seq<CronJob>,
    more_shown: Seq<Shown>,
    n: nat,
)
    requires
        n <= jobs.len(),
        n <= shown.len(),
        n <= more_jobs.len(),
        n <= more_shown.len(),
        forall|k: int| 0 <= k < n ==> jobs[k] == more_jobs[k] && shown[k] == more_shown[k],
    ensures
        entries_text(jobs, shown, n) == entries_text(more_jobs, more_shown, n),
    decreases n,
{
    if n > 0 {
        lemma_entries_text_grows(jobs, shown, more_jobs, more_shown, (n - 1) as nat);
    }
}

/// Carries out `add` with the arguments `rest`.
fn cron_add(store: &mut CronStore, channel: &str, user_id: &str, rest: &[char]) -> (r: Result<
    CommandResult,
    String,
>)
    requires
        old(store).wf(),
    ensures
        final(store).wf(),
        exists|resolved: Option<u64>, key: Seq<char>, shown: Shown| #[trigger]
            add_outcome(
                *old(store),
                *final(store),
                command_view(r),
                channel@,
                user_id@,
                rest@,
                resolved,
                key,
                shown,
            ),
{
    if rest.len() == 0 {
        let r = respond(ADD_USAGE);
        assert(add_outcome(
            *old(store),
            *store,
            command_view(r),
            channel@,
            user_id@,
            rest@,
            None,
            Seq::empty(),
            Shown { schedule: Seq::empty(), next: Seq::empty() },
        ));
        return r;
    }
    let rest_text = string_of(rest);
    let parsed = parse_add_command(rest_text.as_str());
    let ghost resolved = add_instant(add_result_view(parsed));
    let (schedule, prompt) = match parsed {
        Ok(pair) => pair,
        Err(reason) => {
            let mut out: Vec<char> = Vec::new();
            push_str(&mut out, "Error: ");
            push_str(&mut out, reason.as_str());
            let r = Ok(CommandResult::Response(string_of(out.as_slice())));
            assert(add_outcome(
                *old(store),
                *store,
                command_view(r),
                channel@,
                user_id@,
                rest@,
                resolved,
                Seq::empty(),
                Shown { schedule: Seq::empty(), next: Seq::empty() },
            ));
            return r;
        },
    };
    let name = truncate_for_name(prompt.as_str(), 30);
    let schedule_text = schedule.description();
    let one_shot_at = match schedule {
        CronSchedule::At(ts) => Some(ts),
        _ => None,
    };
    let job = CronJob::new(
        name,
        prompt,
        schedule,
        channel.to_owned(),
        user_id.to_owned(),
    );
    let shown = job.clone();
    let id = store.add(job);
    let next = match one_shot_at {
        Some(ts) => format_timestamp(ts),
        None => next_run_text(shown.state.next_run_at, "soon"),
    };
    let r = Ok(CommandResult::Response(created_message(&shown, schedule_text.as_str(), next.as_str())));
    assert(add_outcome(
        *old(store),
        *store,
        command_view(r),
        channel@,
        user_id@,
        rest@,
        resolved,
        id@,
        Shown { schedule: schedule_text@, next: next@ },
    ));
    r
}

/// Carries out `remove` for the job named by `id`.
fn cron_remove(store: &mut CronStore, channel: &str, user_id: &str, rest: &[char]) -> (r: Result<
    CommandResult,
    String,
>)
    requires
        old(store).wf(),
    ensures
        final(store).wf(),
        remove_outcome(*old(store), *final(store), command_view(r), channel@, user_id@, rest@),
{
    let id = trimmed(rest);
    if id.len() == 0 {
        return respond(REMOVE_USAGE);
    }
    let id_text = string_of(id.as_slice());
    let key = match find_job_id(store, channel, user_id, id_text.as_str()) {
        Ok(key) => key,
        Err(reason) => {
            return Err(reason);
        },
    };
    match store.remove(key.as_str(), channel, user_id) {
        Ok(Some(job)) => {
            let mut out: Vec<char> = Vec::new();
            push_job_label(&mut out, "Removed", &job);
            Ok(CommandResult::Response(string_of(out.as_slice())))
        },
        Ok(None) => {
            let mut out: Vec<char> = Vec::new();
            push_str(&mut out, "Job not found: ");
            push_all(&mut out, id.as_slice());
            Ok(CommandResult::Response(string_of(out.as_slice())))
        },
        Err(e) => Err(e.message()),
    }
}

/// Carries out `run` for the job named by `rest`.
fn cron_run(store: &CronStore, channel: &str, user_id: &str, rest: &[char]) -> (r: Result<
    CommandResult,
    String,
>)
    requires
        store.wf(),
    ensures
        run_outcome(*store, *store, command_view(r), channel@, user_id@, rest@),
{
    let id = trimmed(rest);
    if id.len() == 0 {
        return respond(RUN_USAGE);
    }
    let id_text = string_of(id.as_slice());
    match find_job_id(store, channel, user_id, id_text.as_str()) {
        Ok(key) => Ok(CommandResult::CronRun(key)),
        Err(reason) => Err(reason),
    }
}

/// Carries out `pause` (`enable` false) or `resume` (`enable` true) for the
/// job named by `rest`.
fn cron_switch(
    store: &mut CronStore,
    channel: &str,
    user_id: &str,
    rest: &[char],
    enable: bool,
) -> (r: Result<CommandResult, String>)
    requires
        old(store).wf(),
    ensures
        final(store).wf(),
        !enable ==> pause_outcome(
            *old(store),
            *final(store),
            command_view(r),
            channel@,
            user_id@,
            rest@,
        ),
        enable ==> resume_outcome(
            *old(store),
            *final(store),
            command_view(r),
            channel@,
            user_id@,
            rest@,
        ),
{
    let id = trimmed(rest);
    if id.len() == 0 {
        return if enable {
            respond(RESUME_USAGE)
        } else {
            respond(PAUSE_USAGE)
        };
    }
    let id_text = string_of(id.as_slice());
    let key = match find_job_id(store, channel, user_id, id_text.as_str()) {
        Ok(key) => key,
        Err(reason) => {
            return Err(reason);
        },
    };
    let owned = match store.jobs.get(key.as_str()) {
        Some(job) => job.is_owned_by(channel, user_id),
        None => {
            let mut out: Vec<char> = Vec::new();
            push_str(&mut out, "Job not found: ");
            push_all(&mut out, id.as_slice());
            return Ok(CommandResult::Response(string_of(out.as_slice())));
        },
    };
    if !owned {
        return respond("Job not found");
    }
    let now = crate::cron::store::now_millis();
    let shown = match store.get_mut(key.as_str()) {
        Some(job) => {
            let before = job.clone();
            job.enabled = enable;
            if enable {
                job.update_next_run(now);
            } else {
                job.state.next_run_at = None;
            }
            (before, job.state.next_run_at)
        },
        None => {
            return respond("Job not found");
        },
    };
    if enable {
        let next = next_run_text(shown.1, "soon");
        Ok(CommandResult::Response(resumed_message(&shown.0, next.as_str())))
    } else {
        let mut out: Vec<char> = Vec::new();
        push_job_label(&mut out, "Paused", &shown.0);
        Ok(CommandResult::Response(string_of(out.as_slice())))
    }
}

/// Carries out a `/cron` command for a caller; `args` is what follows
/// `/cron`, trimmed.
///
/// The first word chooses the command, the rest are its arguments; see the
/// outcome of each command. A new job gets its identifier by a random draw
/// and its times from the system clock and the calendar.
pub fn process_cron_command(store: &mut CronStore, channel: &str, user_id: &str, args: &str) -> (r:
    Result<CommandResult, String>)
    requires
        old(store).wf(),
    ensures
        final(store).wf(),
        match command_of(cron_word(args@)) {
            CronCommand::List => list_outcome(
                *old(store),
                *final(store),
                command_view(r),
                channel@,
                user_id@,
            ),
            CronCommand::Add => exists|resolved: Option<u64>, key: Seq<char>, shown: Shown|
                #[trigger]
                add_outcome(
                    *old(store),
                    *final(store),
                    command_view(r),
                    channel@,
                    user_id@,
                    cron_rest(args@),
                    resolved,
                    key,
                    shown,
                ),
            CronCommand::Remove => remove_outcome(
                *old(store),
                *final(store),
                command_view(r),
                channel@,
                user_id@,
                cron_rest(args@),
            ),
            CronCommand::Run => run_outcome(
                *old(store),
                *final(store),
                command_view(r),
                channel@,
                user_id@,
                cron_rest(args@),
            ),
            CronCommand::Pause => pause_outcome(
                *old(store),
                *final(store),
                command_view(r),
                channel@,
                user_id@,
                cron_rest(args@),
            ),
            CronCommand::Resume => resume_outcome(
                *old(store),
                *final(store),
                command_view(r),
                channel@,
                user_id@,
                cron_rest(args@),
            ),
            CronCommand::Help => final(store).same_as(*old(store)) && command_view(r) == Ok::<
                CommandView,
                Seq<char>,
            >(CommandView::Response(HELP@)),
        },
{
    let raw = chars_of(args);
    let parts = split_n(raw.as_slice(), ' ', 2);
    proof {
        crate::text::lemma_split_limit_len(raw@, ' ', 2);
    }
    let empty: Vec<char> = Vec::new();
    let rest: &Vec<char> = if parts.len() > 1 {
        &parts[1]
    } else {
        &empty
    };
    match classify(parts[0].as_slice()) {
        CronCommand::List => cron_list(store, channel, user_id),
        CronCommand::Add => {
            let r = cron_add(store, channel, user_id, rest.as_slice());
            proof {
                let (resolved, key, shown) = choose|
                    resolved: Option<u64>,
                    key: Seq<char>,
                    shown: Shown,
                | #[trigger]
                    add_outcome(
                        *old(store),
                        *store,
                        command_view(r),
                        channel@,
                        user_id@,
                        rest@,
                        resolved,
                        key,
                        shown,
                    );
                assert(add_outcome(
                    *old(store),
                    *store,
                    command_view(r),
                    channel@,
                    user_id@,
                    cron_rest(args@),
                    resolved,
                    key,
                    shown,
                ));
            }
            r
        },
        CronCommand::Remove => cron_remove(store, channel, user_id, rest.as_slice()),
        CronCommand::Run => cron_run(store, channel, user_id, rest.as_slice()),
        CronCommand::Pause => cron_switch(store, channel, user_id, rest.as_slice(), false),
        CronCommand::Resume => cron_switch(store, channel, user_id, rest.as_slice(), true),
        CronCommand::Help => respond(HELP),
    }
}

// ---------------------------------------------------------------------------
// Laws
// ---------------------------------------------------------------------------

/// Pausing and resuming keep the rule that a disabled job has no next run
/// time, and a paused job is not due at any time.
pub proof fn law_switching_keeps_jobs_settled(job: CronJob, next: Option<u64>, now_ms: u64)
    ensures
        settled(paused(job)),
        settled(resumed(job, next)),
        !paused(job).due_at(now_ms),
{
}

/// A text that is a key of the caller's own job names that job, whatever
/// other jobs begin with it.
pub proof fn law_own_key_names_its_job(
    table: Map<Seq<char>, CronJob>,
    jobs: Seq<CronJob>,
    channel: Seq<char>,
    user_id: Seq<char>,
    id: Seq<char>,
)
    requires
        trim(id) == id,
        table.contains_key(id),
        table[id].owned_by(channel, user_id),
    ensures
        find_job_spec(table, jobs, channel, user_id, id) == Ok::<Seq<char>, Seq<char>>(id),
{
}

/// A prefix never names a job silently: where it is no key of the caller and
/// not exactly one of the caller's jobs begins with it, the answer is an
/// error.
pub proof fn law_prefix_is_never_guessed(
    table: Map<Seq<char>, CronJob>,
    jobs: Seq<CronJob>,
    channel: Seq<char>,
    user_id: Seq<char>,
    text: Seq<char>,
)
    requires
        !(table.contains_key(trim(text)) && table[trim(text)].owned_by(channel, user_id)),
        prefix_matches(jobs, channel, user_id, trim(text)).len() != 1,
    ensures
        find_job_spec(table, jobs, channel, user_id, text) is Err,
{
}

/// Whatever a prefix names is a job of the caller whose identifier begins
/// with it.
pub proof fn law_prefix_names_own_job(
    table: Map<Seq<char>, CronJob>,
    jobs: Seq<CronJob>,
    channel: Seq<char>,
    user_id: Seq<char>,
    text: Seq<char>,
)
    requires
        !(table.contains_key(trim(text)) && table[trim(text)].owned_by(channel, user_id)),
        find_job_spec(table, jobs, channel, user_id, text) is Ok,
    ensures
        ({
            let found = prefix_matches(jobs, channel, user_id, trim(text))[0];
            &&& find_job_spec(table, jobs, channel, user_id, text) == Ok::<Seq<char>, Seq<char>>(
                found.id@,
            )
            &&& jobs.contains(found)
            &&& found.owned_by(channel, user_id)
            &&& trim(text).is_prefix_of(found.id@)
        }),
{
    let id = trim(text);
    let owned = jobs.filter(owner_is(channel, user_id));
    let matches = owned.filter(id_begins_with(id));
    owned.lemma_filter_pred(id_begins_with(id), 0);
    owned.lemma_filter_contains_rev(id_begins_with(id), matches[0]);
    let k = choose|k: int| 0 <= k < owned.len() && owned[k] == matches[0];
    jobs.lemma_filter_pred(owner_is(channel, user_id), k);
    jobs.lemma_filter_contains_rev(owner_is(channel, user_id), matches[0]);
}

} // verus!
