//! Jobs and the table that holds them.

use crate::cron::clock::system_millis;
use crate::cron::schedule::{next_run_spec, CronSchedule};
use crate::text::{push_str, str_eq, string_of};
use crate::textmap::{lemma_pairing_push, pairing, TextMap};
use crate::trusted::{generate_job_id, CALENDAR_LIMIT_MS};
use vstd::prelude::*;
use vstd::string::StrSliceExecFns;

verus! {

/// Identifier of a job.
pub type JobId = String;

/// How the last run of a job ended.
#[derive(Debug, PartialEq)]
pub enum JobStatus {
    Pending,
    Running,
    Success,
    Failed(String),
}

impl Default for JobStatus {
    fn default() -> (r: Self)
        ensures
            r == JobStatus::Pending,
    {
        JobStatus::Pending
    }
}

impl Clone for JobStatus {
    fn clone(&self) -> (r: Self)
        ensures
            r == *self,
    {
        match self {
            JobStatus::Pending => JobStatus::Pending,
            JobStatus::Running => JobStatus::Running,
            JobStatus::Success => JobStatus::Success,
            JobStatus::Failed(reason) => JobStatus::Failed(reason.clone()),
        }
    }
}

impl JobStatus {
    /// The lower-case name of the status.
    pub open spec fn name(self) -> Seq<char> {
        match self {
            JobStatus::Pending => "pending"@,
            JobStatus::Running => "running"@,
            JobStatus::Success => "success"@,
            JobStatus::Failed(_) => "failed"@,
        }
    }

    /// The lower-case name of the status.
    pub fn as_str(&self) -> (r: &'static str)
        ensures
            r@ == self.name(),
    {
        match self {
            JobStatus::Pending => "pending",
            JobStatus::Running => "running",
            JobStatus::Success => "success",
            JobStatus::Failed(_) => "failed",
        }
    }
}

/// What the scheduler records about the runs of a job.
#[derive(Debug)]
pub struct CronJobState {
    /// When the job is due next; `None` while it runs, is paused or is spent.
    pub next_run_at: Option<u64>,
    /// When the last run ended.
    pub last_run_at: Option<u64>,
    /// How the last run ended.
    pub last_status: JobStatus,
    /// How long the last run took.
    pub last_duration_ms: Option<u64>,
    /// Failed runs since the last success.
    pub failure_count: u32,
}

impl Default for CronJobState {
    fn default() -> (r: Self)
        ensures
            r == CronJobState::fresh(),
    {
        CronJobState {
            next_run_at: None,
            last_run_at: None,
            last_status: JobStatus::Pending,
            last_duration_ms: None,
            failure_count: 0,
        }
    }
}

impl Clone for CronJobState {
    fn clone(&self) -> (r: Self)
        ensures
            r == *self,
    {
        CronJobState {
            next_run_at: self.next_run_at,
            last_run_at: self.last_run_at,
            last_status: self.last_status.clone(),
            last_duration_ms: self.last_duration_ms,
            failure_count: self.failure_count,
        }
    }
}

impl CronJobState {
    /// The state of a job that has never run and is not yet scheduled.
    pub open spec fn fresh() -> CronJobState {
        CronJobState {
            next_run_at: None,
            last_run_at: None,
            last_status: JobStatus::Pending,
            last_duration_ms: None,
            failure_count: 0,
        }
    }
}

/// A prompt to run on a schedule for one user of one channel.
#[derive(Debug)]
pub struct CronJob {
    pub id: JobId,
    pub name: String,
    /// The text handed to the assistant when the job runs.
    pub prompt: String,
    pub schedule: CronSchedule,
    /// Owner: the channel the job was created from.
    pub channel: String,
    /// Owner: the user within that channel.
    pub user_id: String,
    /// Whether results are sent to the owner.
    pub notify: bool,
    /// Whether the job takes part in scheduling.
    pub enabled: bool,
    pub created_at: u64,
    pub state: CronJobState,
}

impl Clone for CronJob {
    fn clone(&self) -> (r: Self)
        ensures
            r == *self,
    {
        CronJob {
            id: self.id.clone(),
            name: self.name.clone(),
            prompt: self.prompt.clone(),
            schedule: self.schedule.clone(),
            channel: self.channel.clone(),
            user_id: self.user_id.clone(),
            notify: self.notify,
            enabled: self.enabled,
            created_at: self.created_at,
            state: self.state.clone(),
        }
    }
}

/// The first eight characters of an identifier, or all of a shorter one.
pub open spec fn short_form(id: Seq<char>) -> Seq<char> {
    if id.len() > 8 {
        id.take(8)
    } else {
        id
    }
}

impl CronJob {
    /// Whether the job belongs to `user_id` on `channel`.
    pub open spec fn owned_by(self, channel: Seq<char>, user_id: Seq<char>) -> bool {
        self.channel@ == channel && self.user_id@ == user_id
    }

    /// Whether the job is due at `now_ms`: it is enabled and its next run
    /// time has come.
    pub open spec fn due_at(self, now_ms: u64) -> bool {
        self.enabled && (self.state.next_run_at matches Some(t) && t <= now_ms)
    }

    /// The job as it is once its next run has been computed from `now_ms`.
    pub open spec fn rescheduled(self, next: Option<u64>) -> CronJob {
        CronJob { state: CronJobState { next_run_at: next, ..self.state }, ..self }
    }

    /// A new job with the identifier `id`, created at `now_ms`: enabled,
    /// notifying, never run, and scheduled from `now_ms`.
    pub open spec fn created(
        id: JobId,
        name: String,
        prompt: String,
        schedule: CronSchedule,
        channel: String,
        user_id: String,
        now_ms: u64,
        next: Option<u64>,
    ) -> CronJob {
        CronJob {
            id,
            name,
            prompt,
            schedule,
            channel,
            user_id,
            notify: true,
            enabled: true,
            created_at: now_ms,
            state: CronJobState { next_run_at: next, ..CronJobState::fresh() },
        }
    }

    /// Makes a job with a given identifier at a given time.
    pub fn with_id(
        id: JobId,
        name: String,
        prompt: String,
        schedule: CronSchedule,
        channel: String,
        user_id: String,
        now_ms: u64,
    ) -> (job: Self)
        ensures
            job == CronJob::created(
                id,
                name,
                prompt,
                schedule,
                channel,
                user_id,
                now_ms,
                job.state.next_run_at,
            ),
            !(schedule@ is Cron) ==> job.state.next_run_at == next_run_spec(schedule@, now_ms),
            schedule@ is Cron && now_ms > CALENDAR_LIMIT_MS ==> job.state.next_run_at is None,
    {
        let mut job = CronJob {
            id,
            name,
            prompt,
            schedule,
            channel,
            user_id,
            notify: true,
            enabled: true,
            created_at: now_ms,
            state: CronJobState::default(),
        };
        job.update_next_run(now_ms);
        job
    }

    /// Makes a job with a fresh random identifier, created and scheduled from
    /// the system clock's reading.
    pub fn new(
        name: String,
        prompt: String,
        schedule: CronSchedule,
        channel: String,
        user_id: String,
    ) -> (job: Self)
        ensures
            job == CronJob::created(
                job.id,
                name,
                prompt,
                schedule,
                channel,
                user_id,
                job.created_at,
                job.state.next_run_at,
            ),
            !(schedule@ is Cron) ==> job.state.next_run_at == next_run_spec(
                schedule@,
                job.created_at,
            ),
    {
        let now = system_millis();
        CronJob::with_id(generate_job_id(), name, prompt, schedule, channel, user_id, now)
    }

    /// The owner as one text: channel, a colon, user.
    pub fn user_key(&self) -> (r: String)
        ensures
            r@ == self.channel@ + ":"@ + self.user_id@,
    {
        let mut out: Vec<char> = Vec::new();
        push_str(&mut out, self.channel.as_str());
        push_str(&mut out, ":");
        push_str(&mut out, self.user_id.as_str());
        string_of(out.as_slice())
    }

    /// Computes the next run time from `now_ms` and records it.
    pub fn update_next_run(&mut self, now_ms: u64)
        ensures
            *final(self) == old(self).rescheduled(final(self).state.next_run_at),
            !(old(self).schedule@ is Cron) ==> final(self).state.next_run_at == next_run_spec(
                old(self).schedule@,
                now_ms,
            ),
            old(self).schedule@ is Cron && now_ms > CALENDAR_LIMIT_MS
                ==> final(self).state.next_run_at is None,
    {
        self.state.next_run_at = self.schedule.next_run_after(now_ms);
    }

    /// Whether the job is due at `now_ms`.
    pub fn is_due(&self, now_ms: u64) -> (r: bool)
        ensures
            r == self.due_at(now_ms),
    {
        self.enabled && match self.state.next_run_at {
            Some(t) => t <= now_ms,
            None => false,
        }
    }

    /// The identifier cut to its first eight characters, for display.
    pub fn short_id(&self) -> (r: &str)
        ensures
            r@ == short_form(self.id@),
    {
        let id = self.id.as_str();
        if id.unicode_len() > 8 {
            id.substring_char(0, 8)
        } else {
            id
        }
    }

    /// Whether the job belongs to `user_id` on `channel`.
    pub fn is_owned_by(&self, channel: &str, user_id: &str) -> (r: bool)
        ensures
            r == self.owned_by(channel@, user_id@),
    {
        str_eq(self.channel.as_str(), channel) && str_eq(self.user_id.as_str(), user_id)
    }
}

/// Current time in milliseconds since the Unix epoch, by the system clock.
pub fn now_millis() -> u64 {
    system_millis()
}

// ---------------------------------------------------------------------------
// The job table
// ---------------------------------------------------------------------------

/// Why the table refused an operation.
#[derive(Debug, Clone, Copy, PartialEq, Eq)]
pub enum StoreError {
    /// The job exists and belongs to someone else.
    NotOwner,
}

impl StoreError {
    /// The refusal in words.
    pub fn message(&self) -> (r: String)
        ensures
            r@ == "You don't own this job"@,
    {
        "You don't own this job".to_owned()
    }
}

/// The jobs that belong to `user_id` on `channel`.
pub open spec fn owner_is(channel: Seq<char>, user_id: Seq<char>) -> spec_fn(CronJob) -> bool {
    |job: CronJob| job.owned_by(channel, user_id)
}

/// The jobs that are due at `now_ms`.
pub open spec fn due_by(now_ms: u64) -> spec_fn(CronJob) -> bool {
    |job: CronJob| job.due_at(now_ms)
}

/// The jobs that are enabled.
pub open spec fn is_enabled() -> spec_fn(CronJob) -> bool {
    |job: CronJob| job.enabled
}

/// The jobs that a list of references points to.
pub open spec fn pointees(refs: Seq<&CronJob>) -> Seq<CronJob> {
    refs.map_values(|job: &CronJob| *job)
}

/// The mapping that a saved list of entries stands for when it is read
/// back: each key maps to the job of its last entry.
pub open spec fn entries_map(entries: Seq<(String, CronJob)>) -> Map<Seq<char>, CronJob>
    decreases entries.len(),
{
    if entries.len() == 0 {
        Map::empty()
    } else {
        entries_map(entries.drop_last()).insert(entries.last().0@, entries.last().1)
    }
}

/// Whether `entries` lists exactly the keys `ids` with the jobs `jobs`, in
/// order.
pub open spec fn lists(entries: Seq<(String, CronJob)>, ids: Seq<Seq<char>>, jobs: Seq<CronJob>)
    -> bool {
    &&& entries.len() == ids.len()
    &&& entries.len() == jobs.len()
    &&& forall|i: int|
        0 <= i < entries.len() ==> (#[trigger] entries[i]).0@ == ids[i] && entries[i].1 == jobs[i]
}

/// The job as it is while it runs: marked running, with no next run time, so
/// that no later look for due jobs selects it again.
pub open spec fn started(job: CronJob) -> CronJob {
    CronJob {
        state: CronJobState { next_run_at: None, last_status: JobStatus::Running, ..job.state },
        ..job
    }
}

/// The jobs of a table after a look for due jobs at `now_ms`: every due job
/// is [`started`], the others are as they were.
pub open spec fn start_all(jobs: Seq<CronJob>, now_ms: u64) -> Seq<CronJob> {
    jobs.map_values(
        |job: CronJob|
            if job.due_at(now_ms) {
                started(job)
            } else {
                job
            },
    )
}

/// The job under `id` as `user_id` on `channel` sees it: there for its owner,
/// absent for everyone else.
pub open spec fn own_job(
    table: Map<Seq<char>, CronJob>,
    id: Seq<char>,
    channel: Seq<char>,
    user_id: Seq<char>,
) -> Option<CronJob> {
    if table.contains_key(id) && table[id].owned_by(channel, user_id) {
        Some(table[id])
    } else {
        None
    }
}

/// What taking the job under `id` out of the table gives `user_id` on
/// `channel`: nothing where there is no such job, a refusal where the job
/// belongs to someone else, the job where it is the caller's.
pub open spec fn removal(
    table: Map<Seq<char>, CronJob>,
    id: Seq<char>,
    channel: Seq<char>,
    user_id: Seq<char>,
) -> Result<Option<CronJob>, StoreError> {
    if !table.contains_key(id) {
        Ok(None)
    } else if !table[id].owned_by(channel, user_id) {
        Err(StoreError::NotOwner)
    } else {
        Ok(Some(table[id]))
    }
}

/// The jobs of all users, each under its key.
///
/// The table is a mapping from key to job ([`CronStore::view`]); the order
/// in which jobs were first added is kept and is the order of every listing.
pub struct CronStore {
    /// All jobs by key.
    pub jobs: TextMap<CronJob>,
}

impl View for CronStore {
    type V = Map<Seq<char>, CronJob>;

    open spec fn view(&self) -> Map<Seq<char>, CronJob> {
        self.jobs@
    }
}

impl Default for CronStore {
    fn default() -> (r: Self)
        ensures
            r.wf(),
            r.ids() == Seq::<Seq<char>>::empty(),
            r.job_seq() == Seq::<CronJob>::empty(),
    {
        CronStore::new()
    }
}

impl Clone for CronStore {
    fn clone(&self) -> (r: Self)
        ensures
            self.wf() ==> r.wf() && r.ids() == self.ids() && r.job_seq() == self.job_seq(),
    {
        let mut jobs: TextMap<CronJob> = TextMap::new();
        if self.jobs.len() != self.jobs.key_count() {
            return CronStore { jobs };
        }
        let mut i: usize = 0;
        while i < self.jobs.len()
            invariant
                i <= self.job_seq().len(),
                self.ids().len() == self.job_seq().len(),
                jobs.wf(),
                self.wf() ==> jobs.ids() == self.ids().take(i as int) && jobs.vals()
                    == self.job_seq().take(i as int),
            decreases self.job_seq().len() - i,
        {
            let key = self.jobs.key_at(i).clone();
            let job = self.jobs.value_at(i).clone();
            proof {
                if self.wf() {
                    let ids = self.ids();
                    assert(!ids.take(i as int).contains(ids[i as int])) by {
                        if ids.take(i as int).contains(ids[i as int]) {
                            let a = ids.take(i as int).index_of(ids[i as int]);
                            assert(ids[a] == ids[i as int]);
                        }
                    }
                    assert(ids.take(i + 1) == ids.take(i as int).push(ids[i as int]));
                    assert(self.job_seq().take(i + 1) == self.job_seq().take(i as int).push(
                        self.job_seq()[i as int],
                    ));
                }
            }
            jobs.insert(key, job);
            i += 1;
        }
        proof {
            assert(self.ids().take(self.ids().len() as int) == self.ids());
            assert(self.job_seq().take(self.job_seq().len() as int) == self.job_seq());
        }
        CronStore { jobs }
    }
}

impl CronStore {
    /// The keys of the table, in the order in which they were first added.
    pub open spec fn ids(&self) -> Seq<Seq<char>> {
        self.jobs.ids()
    }

    /// The jobs of the table, each at the position of its key in
    /// [`CronStore::ids`].
    pub open spec fn job_seq(&self) -> Seq<CronJob> {
        self.jobs.vals()
    }

    /// Whether two tables hold the same keys with the same jobs in the same
    /// order.
    pub open spec fn same_as(&self, other: CronStore) -> bool {
        self.ids() == other.ids() && self.job_seq() == other.job_seq()
    }

    /// The table is well formed: every key has one job, and no key occurs
    /// twice.
    pub open spec fn wf(&self) -> bool {
        self.jobs.wf()
    }

    /// An empty table.
    pub fn new() -> (r: Self)
        ensures
            r.wf(),
            r.ids() == Seq::<Seq<char>>::empty(),
            r.job_seq() == Seq::<CronJob>::empty(),
    {
        CronStore { jobs: TextMap::new() }
    }

    /// Number of jobs in the table.
    pub fn len(&self) -> (n: usize)
        ensures
            n == self.job_seq().len(),
    {
        self.jobs.len()
    }

    /// Puts `job` under `key`, in place of the job that was there if any.
    pub fn put(&mut self, key: String, job: CronJob)
        requires
            old(self).wf(),
        ensures
            final(self).wf(),
            final(self)@ == old(self)@.insert(key@, job),
            old(self).ids().contains(key@) ==> final(self).ids() == old(self).ids(),
            !old(self).ids().contains(key@) ==> final(self).ids() == old(self).ids().push(key@)
                && final(self).job_seq() == old(self).job_seq().push(job),
    {
        self.jobs.insert(key, job);
    }

    /// Adds `job` under its identifier and hands the identifier back. A job
    /// that was there under the same identifier is replaced.
    pub fn add(&mut self, job: CronJob) -> (id: JobId)
        requires
            old(self).wf(),
        ensures
            final(self).wf(),
            id@ == job.id@,
            final(self)@ == old(self)@.insert(job.id@, job),
            old(self).ids().contains(job.id@) ==> final(self).ids() == old(self).ids(),
            !old(self).ids().contains(job.id@) ==> final(self).ids() == old(self).ids().push(
                job.id@,
            ) && final(self).job_seq() == old(self).job_seq().push(job),
    {
        let id = job.id.clone();
        let key = job.id.clone();
        self.put(key, job);
        id
    }

    /// Takes the job `id` out of the table for its owner.
    ///
    /// Nothing happens and `Ok(None)` comes back where no job has that key;
    /// nothing happens and the refusal comes back where the job belongs to
    /// someone else.
    pub fn remove(&mut self, id: &str, channel: &str, user_id: &str) -> (r: Result<
        Option<CronJob>,
        StoreError,
    >)
        requires
            old(self).wf(),
        ensures
            final(self).wf(),
            r == removal(old(self)@, id@, channel@, user_id@),
            r matches Ok(Some(_)) ==> final(self)@ == old(self)@.remove(id@),
            !(r matches Ok(Some(_))) ==> *final(self) == *old(self),
    {
        let owned = match self.jobs.get(id) {
            None => {
                return Ok(None);
            },
            Some(job) => job.is_owned_by(channel, user_id),
        };
        if !owned {
            return Err(StoreError::NotOwner);
        }
        Ok(self.jobs.remove(id))
    }

    /// The jobs of one owner, in table order.
    pub fn list_for_user(&self, channel: &str, user_id: &str) -> (r: Vec<&CronJob>)
        ensures
            pointees(r@) == self.job_seq().filter(owner_is(channel@, user_id@)),
            forall|i: int| 0 <= i < r@.len() ==> (#[trigger] r@[i]).owned_by(channel@, user_id@),
    {
        let mut out: Vec<&CronJob> = Vec::new();
        let mut i: usize = 0;
        let ghost pred = owner_is(channel@, user_id@);
        proof {
            reveal(Seq::filter);
        }
        while i < self.jobs.len()
            invariant
                i <= self.job_seq().len(),
                pred == owner_is(channel@, user_id@),
                pointees(out@) == self.job_seq().take(i as int).filter(pred),
                forall|k: int|
                    0 <= k < out@.len() ==> (#[trigger] out@[k]).owned_by(channel@, user_id@),
            decreases self.job_seq().len() - i,
        {
            let job = self.jobs.value_at(i);
            proof {
                reveal(Seq::filter);
                assert(self.job_seq().take(i + 1).drop_last() == self.job_seq().take(i as int));
            }
            if job.is_owned_by(channel, user_id) {
                let ghost before = pointees(out@);
                out.push(job);
                assert(pointees(out@) == before.push(*job));
            }
            i += 1;
        }
        assert(self.job_seq().take(self.job_seq().len() as int) == self.job_seq());
        out
    }

    /// The job `id`, for its owner. `None` both where there is no such job
    /// and where it belongs to someone else.
    pub fn get(&self, id: &str, channel: &str, user_id: &str) -> (r: Option<&CronJob>)
        requires
            self.wf(),
        ensures
            own_job(self@, id@, channel@, user_id@) == match r {
                Some(job) => Some(*job),
                None => None,
            },
    {
        match self.jobs.get(id) {
            Some(job) => {
                if job.is_owned_by(channel, user_id) {
                    Some(job)
                } else {
                    None
                }
            },
            None => None,
        }
    }

    /// The job `id` whoever owns it, for the scheduler to update.
    pub fn get_mut(&mut self, id: &str) -> (r: Option<&mut CronJob>)
        requires
            old(self).wf(),
        ensures
            final(self).wf(),
            match r {
Some(job) => old(self)@.contains_key(id@) && *job == old(self)@[id@] && final(self)@
                    == old(self)@.insert(id@, *final(job)) && final(self).ids() == old(self).ids()
                    && final(self).job_seq() == old(self).job_seq().update(
                    old(self).ids().index_of(id@),
                    *final(job),
                ),
                None => !old(self)@.contains_key(id@) && *final(self) == *old(self),
            },
    {
        self.jobs.get_mut(id)
    }

    /// The jobs that are due at `now_ms`, in table order: the enabled jobs
    /// whose next run time is at or before `now_ms`.
    pub fn get_due_jobs(&self, now_ms: u64) -> (r: Vec<&CronJob>)
        ensures
            pointees(r@) == self.job_seq().filter(due_by(now_ms)),
            forall|i: int|
                0 <= i < r@.len() ==> (#[trigger] r@[i]).enabled && r@[i].state.next_run_at is Some
                    && r@[i].state.next_run_at->0 <= now_ms,
    {
        let mut out: Vec<&CronJob> = Vec::new();
        let mut i: usize = 0;
        proof {
            reveal(Seq::filter);
        }
        while i < self.jobs.len()
            invariant
                i <= self.job_seq().len(),
                pointees(out@) == self.job_seq().take(i as int).filter(due_by(now_ms)),
                forall|k: int| 0 <= k < out@.len() ==> (#[trigger] out@[k]).due_at(now_ms),
            decreases self.job_seq().len() - i,
        {
            let job = self.jobs.value_at(i);
            proof {
                reveal(Seq::filter);
                assert(self.job_seq().take(i + 1).drop_last() == self.job_seq().take(i as int));
            }
            if job.is_due(now_ms) {
                let ghost before = pointees(out@);
                out.push(job);
                assert(pointees(out@) == before.push(*job));
            }
            i += 1;
        }
        assert(self.job_seq().take(self.job_seq().len() as int) == self.job_seq());
        out
    }

    /// The enabled jobs, in table order.
    pub fn get_enabled_jobs(&self) -> (r: Vec<&CronJob>)
        ensures
            pointees(r@) == self.job_seq().filter(is_enabled()),
            forall|i: int| 0 <= i < r@.len() ==> (#[trigger] r@[i]).enabled,
    {
        let mut out: Vec<&CronJob> = Vec::new();
        let mut i: usize = 0;
        proof {
            reveal(Seq::filter);
        }
        while i < self.jobs.len()
            invariant
                i <= self.job_seq().len(),
                pointees(out@) == self.job_seq().take(i as int).filter(is_enabled()),
                forall|k: int| 0 <= k < out@.len() ==> (#[trigger] out@[k]).enabled,
            decreases self.job_seq().len() - i,
        {
            let job = self.jobs.value_at(i);
            proof {
                reveal(Seq::filter);
                assert(self.job_seq().take(i + 1).drop_last() == self.job_seq().take(i as int));
            }
            if job.enabled {
                let ghost before = pointees(out@);
                out.push(job);
                assert(pointees(out@) == before.push(*job));
            }
            i += 1;
        }
        assert(self.job_seq().take(self.job_seq().len() as int) == self.job_seq());
        out
    }

    /// Marks every job that is due at `now_ms` as running and takes its
    /// next run time away.
    pub fn start_where_due(&mut self, now_ms: u64)
        requires
            old(self).wf(),
        ensures
            final(self).wf(),
            final(self).ids() == old(self).ids(),
            final(self).job_seq() == start_all(old(self).job_seq(), now_ms),
    {
        let ghost before = self.job_seq();
        let mut i: usize = 0;
        while i < self.jobs.len()
            invariant
                i <= self.job_seq().len(),
                self.wf(),
                self.ids() == old(self).ids(),
                before == old(self).job_seq(),
                self.job_seq().len() == before.len(),
                forall|k: int| i <= k < before.len() ==> #[trigger] self.job_seq()[k] == before[k],
                forall|k: int|
                    0 <= k < i ==> #[trigger] self.job_seq()[k] == start_all(before, now_ms)[k],
            decreases self.job_seq().len() - i,
        {
            if self.jobs.value_at(i).is_due(now_ms) {
                let job = self.jobs.value_at_mut(i);
                job.state.last_status = JobStatus::Running;
                job.state.next_run_at = None;
            }
            i += 1;
        }
        assert(self.job_seq() =~= start_all(before, now_ms));
    }

    /// The whole table as a list of entries, for saving.
    pub fn entries(&self) -> (r: Vec<(String, CronJob)>)
        requires
            self.wf(),
        ensures
            lists(r@, self.ids(), self.job_seq()),
    {
        let mut out: Vec<(String, CronJob)> = Vec::new();
        let mut i: usize = 0;
        while i < self.jobs.len()
            invariant
                self.wf(),
                i <= self.job_seq().len(),
                lists(out@, self.ids().take(i as int), self.job_seq().take(i as int)),
            decreases self.job_seq().len() - i,
        {
            out.push((self.jobs.key_at(i).clone(), self.jobs.value_at(i).clone()));
            i += 1;
        }
        assert(self.ids().take(self.ids().len() as int) == self.ids());
        assert(self.job_seq().take(self.job_seq().len() as int) == self.job_seq());
        out
    }

    /// The table that a saved list of entries stands for. Where a key occurs
    /// more than once, its last entry counts.
    pub fn from_entries(entries: Vec<(String, CronJob)>) -> (r: Self)
        ensures
            r.wf(),
            r@ == entries_map(entries@),
    {
        let mut store = CronStore::new();
        let ghost all = entries@;
        assert(store@ =~= entries_map(Seq::<(String, CronJob)>::empty()));
        for entry in it: entries
            invariant
                store.wf(),
                it.seq() == all,
                store@ == entries_map(all.take(it.index() as int)),
        {
            proof {
                let n = it.index() as int;
                let upto = all.take(n + 1);
                assert(upto.drop_last() == all.take(n));
                assert(upto.last() == all[n]);
            }
            store.put(entry.0, entry.1);
        }
        assert(all.take(all.len() as int) == all);
        store
    }

    /// Settles a change that was prepared on a copy of the table: the copy
    /// takes the table's place where it was saved, and is dropped where
    /// saving failed, so that a failed change leaves no trace.
    pub fn commit(&mut self, staged: CronStore, saved: bool) -> (r: bool)
        ensures
            r == saved,
            saved ==> *final(self) == staged,
            !saved ==> *final(self) == *old(self),
    {
        if saved {
            *self = staged;
        }
        saved
    }
}

// ---------------------------------------------------------------------------
// Laws
// ---------------------------------------------------------------------------

/// A job that was added is found again by its owner under its identifier.
pub proof fn law_added_job_is_found(before: CronStore, after: CronStore, job: CronJob)
    requires
        after@ == before@.insert(job.id@, job),
    ensures
        after@.contains_key(job.id@),
        after@[job.id@] == job,
        after@[job.id@].owned_by(job.channel@, job.user_id@),
{
}

/// Reading back the saved entries of a table gives the table again.
pub proof fn law_saved_table_reads_back(store: CronStore, saved: Seq<(String, CronJob)>)
    requires
        store.wf(),
        lists(saved, store.ids(), store.job_seq()),
    ensures
        entries_map(saved) == store@,
{
    lemma_entries_map_of_listing(saved, store.ids(), store.job_seq());
}

/// A job that was added is in every table read back from what was saved
/// after the addition, equal to the job added.
pub proof fn law_added_job_survives_reload(
    before: CronStore,
    after: CronStore,
    job: CronJob,
    saved: Seq<(String, CronJob)>,
)
    requires
        after.wf(),
        after@ == before@.insert(job.id@, job),
        lists(saved, after.ids(), after.job_seq()),
    ensures
        entries_map(saved).contains_key(job.id@),
        entries_map(saved)[job.id@] == job,
{
    law_saved_table_reads_back(after, saved);
}

/// A removal that is refused leaves the table, and so whatever is saved of
/// it, as it was: the entries saved before and after are the same.
pub proof fn law_refused_removal_changes_nothing(
    before: CronStore,
    after: CronStore,
    saved_before: Seq<(String, CronJob)>,
    saved_after: Seq<(String, CronJob)>,
)
    requires
        before.wf(),
        after == before,
        lists(saved_before, before.ids(), before.job_seq()),
        lists(saved_after, after.ids(), after.job_seq()),
    ensures
        entries_map(saved_after) == entries_map(saved_before),
        saved_after.len() == saved_before.len(),
        forall|i: int|
            0 <= i < saved_after.len() ==> (#[trigger] saved_after[i]).0@ == saved_before[i].0@
                && saved_after[i].1 == saved_before[i].1,
{
    law_saved_table_reads_back(before, saved_before);
    law_saved_table_reads_back(after, saved_after);
}

/// No listing of due jobs holds a disabled job or a job without a next run
/// time.
pub proof fn law_due_jobs_are_enabled_and_scheduled(store: CronStore, now_ms: u64, i: int)
    requires
        0 <= i < store.job_seq().filter(due_by(now_ms)).len(),
    ensures
        store.job_seq().filter(due_by(now_ms))[i].enabled,
        store.job_seq().filter(due_by(now_ms))[i].state.next_run_at is Some,
{
    store.job_seq().lemma_filter_pred(due_by(now_ms), i);
}

/// A list that names distinct keys with their jobs reads back as the mapping
/// of those keys to those jobs.
proof fn lemma_entries_map_of_listing(
    saved: Seq<(String, CronJob)>,
    ids: Seq<Seq<char>>,
    jobs: Seq<CronJob>,
)
    requires
        ids.no_duplicates(),
        lists(saved, ids, jobs),
    ensures
        entries_map(saved) == pairing(ids, jobs),
    decreases saved.len(),
{
    if saved.len() == 0 {
        assert(entries_map(saved) =~= pairing(ids, jobs));
    } else {
        let n = saved.len() - 1;
        let ids0 = ids.drop_last();
        let jobs0 = jobs.drop_last();
        assert(lists(saved.drop_last(), ids0, jobs0));
        assert(ids0.no_duplicates());
        lemma_entries_map_of_listing(saved.drop_last(), ids0, jobs0);
        assert(!ids0.contains(ids[n])) by {
            if ids0.contains(ids[n]) {
                let a = ids0.index_of(ids[n]);
                assert(ids[a] == ids[n]);
            }
        }
        lemma_pairing_push(ids0, jobs0, ids[n], jobs[n]);
        assert(ids0.push(ids[n]) == ids);
        assert(jobs0.push(jobs[n]) == jobs);
    }
}

} // verus!
