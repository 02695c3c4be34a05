//! Per-user coalescing of messages.
//!
//! Messages of one user that arrive close together are handed to the handler
//! as one batch, and a newer message supersedes the work begun for an older
//! one. The manager decides; whoever drives it owns the timers and the tasks:
//! it calls [`UserTaskManager::process_message`] for every message, cancels
//! and spawns what the answer says, calls
//! [`UserTaskManager::debounce_elapsed`] when the wait of a task is over, runs
//! the handler on the batch, and calls [`UserTaskManager::task_finished`] at
//! the end.

use crate::textmap::TextMap;
use vstd::prelude::*;

verus! {

/// How long a task waits for further messages before it takes its batch, in
/// milliseconds.
pub const DEBOUNCE_MS: u64 = 200;

/// What to do after a message was taken in.
#[derive(Debug, Clone, Copy, PartialEq, Eq)]
pub struct Dispatch {
    /// The task to cancel, if one was at work for the user.
    pub cancel: Option<u64>,
    /// The task to start: it waits [`DEBOUNCE_MS`], then asks for its batch.
    pub spawn: u64,
}

/// The state of the manager: for each user the messages not yet handed to a
/// handler and the task at work, if any.
pub struct TaskModel {
    /// Users with waiting messages, each with its messages in arrival order.
    pub pending: Map<Seq<char>, Seq<String>>,
    /// Users with a task at work, each with its task.
    pub active: Map<Seq<char>, u64>,
    /// The task that the next message starts.
    pub next_task: u64,
}

impl TaskModel {
    /// The state in which nothing waits and nothing is at work.
    pub open spec fn initial() -> TaskModel {
        TaskModel { pending: Map::empty(), active: Map::empty(), next_task: 0 }
    }

    /// The messages waiting for `key`.
    pub open spec fn queue(self, key: Seq<char>) -> Seq<String> {
        if self.pending.contains_key(key) {
            self.pending[key]
        } else {
            Seq::empty()
        }
    }

    /// The task at work for `key`.
    pub open spec fn task(self, key: Seq<char>) -> Option<u64> {
        if self.active.contains_key(key) {
            Some(self.active[key])
        } else {
            None
        }
    }

    /// The task after `task`.
    pub open spec fn following(task: u64) -> u64 {
        if task < u64::MAX {
            (task + 1) as u64
        } else {
            0
        }
    }

    /// Every task at work was started before the task that the next message
    /// starts. This holds from the start on, for as long as fewer than 2^64
    /// messages have arrived (see [`law_tasks_stay_fresh`]).
    pub open spec fn fresh(self) -> bool {
        forall|k: Seq<char>|
            self.active.contains_key(k) ==> #[trigger] self.active[k] < self.next_task
    }

    /// The state after `message` arrived for `key`: the message waits at the
    /// end of the user's queue, and a new task is at work for the user in
    /// place of the one that was.
    pub open spec fn after_message(self, key: Seq<char>, message: String) -> TaskModel {
        TaskModel {
            pending: self.pending.insert(key, self.queue(key).push(message)),
            active: self.active.insert(key, self.next_task),
            next_task: Self::following(self.next_task),
        }
    }

    /// What to do after a message arrived for `key`.
    pub open spec fn dispatch(self, key: Seq<char>) -> Dispatch {
        Dispatch { cancel: self.task(key), spawn: self.next_task }
    }

    /// Whether `task` is the task at work for `key`.
    pub open spec fn is_current(self, key: Seq<char>, task: u64) -> bool {
        self.task(key) == Some(task)
    }

    /// The batch that `task` gets when its wait is over: all that waits for
    /// the user where the task is the one at work, nothing where it has been
    /// superseded.
    pub open spec fn batch(self, key: Seq<char>, task: u64) -> Seq<String> {
        if self.is_current(key, task) {
            self.queue(key)
        } else {
            Seq::empty()
        }
    }

    /// The state after the wait of `task` is over: where the task is the one
    /// at work, the user's queue is empty, and the task stays at work only if
    /// it got a batch to handle.
    pub open spec fn after_debounce(self, key: Seq<char>, task: u64) -> TaskModel {
        if self.is_current(key, task) {
            TaskModel {
                pending: self.pending.remove(key),
                active: if self.queue(key).len() > 0 {
                    self.active
                } else {
                    self.active.remove(key)
                },
                next_task: self.next_task,
            }
        } else {
            self
        }
    }

    /// The state after the handler of `task` returned: the task is no longer
    /// at work.
    pub open spec fn after_finish(self, key: Seq<char>, task: u64) -> TaskModel {
        if self.is_current(key, task) {
            TaskModel { active: self.active.remove(key), ..self }
        } else {
            self
        }
    }
}

/// What the manager keeps for one user.
pub struct UserSlot {
    /// The messages not yet handed to a handler, in arrival order.
    pub queue: Vec<String>,
    /// The task at work for the user.
    pub task: Option<u64>,
}

/// Debounces and coalesces the messages of each user.
pub struct UserTaskManager {
    slots: TextMap<UserSlot>,
    next_task: u64,
}

impl View for UserTaskManager {
    type V = TaskModel;

    closed spec fn view(&self) -> TaskModel {
        TaskModel {
            pending: Map::new(
                |k: Seq<char>| self.slots@.contains_key(k) && self.slots@[k].queue@.len() > 0,
                |k: Seq<char>| self.slots@[k].queue@,
            ),
            active: Map::new(
                |k: Seq<char>| self.slots@.contains_key(k) && self.slots@[k].task is Some,
                |k: Seq<char>| self.slots@[k].task->0,
            ),
            next_task: self.next_task,
        }
    }
}

impl UserTaskManager {
    /// Every user has one entry.
    pub closed spec fn wf(&self) -> bool {
        self.slots.wf()
    }

    /// A manager with nothing waiting and nothing at work.
    pub fn new() -> (r: Self)
        ensures
            r.wf(),
            r@ == TaskModel::initial(),
    {
        let r = UserTaskManager { slots: TextMap::new(), next_task: 0 };
        assert(r@.pending =~= Map::empty());
        assert(r@.active =~= Map::empty());
        r
    }

    /// Takes in `message` for `user_key` and says which task to cancel and
    /// which to start.
    ///
    /// The message joins the user's queue. The task that was at work for the
    /// user, if any, is to be cancelled at once; a new task is at work in its
    /// place. Other users are not touched.
    pub fn process_message(&mut self, user_key: String, message: String) -> (r: Dispatch)
        requires
            old(self).wf(),
        ensures
            final(self).wf(),
            final(self)@ == old(self)@.after_message(user_key@, message),
            r == old(self)@.dispatch(user_key@),
    {
        let spawn = self.next_task;
        self.next_task = if spawn < u64::MAX {
            spawn + 1
        } else {
            0
        };
        let cancel = match self.slots.get_mut(user_key.as_str()) {
            Some(slot) => {
                let cancel = slot.task;
                slot.queue.push(message);
                slot.task = Some(spawn);
                cancel
            },
            None => {
                let mut queue: Vec<String> = Vec::new();
                queue.push(message);
                self.slots.insert(user_key, UserSlot { queue, task: Some(spawn) });
                None
            },
        };
        proof {
            let key = user_key@;
            let goal = old(self)@.after_message(key, message);
            let waiting = if old(self).slots@.contains_key(key) {
                old(self).slots@[key].queue@
            } else {
                Seq::<String>::empty()
            };
            assert(old(self)@.queue(key) =~= waiting);
            assert(self.slots@[key].queue@ == waiting.push(message));
            assert(self@.pending =~= goal.pending);
            assert(self@.active =~= goal.active);
        }
        Dispatch { cancel, spawn }
    }

    /// Hands `task` its batch when its wait is over.
    ///
    /// The task at work for the user gets all that waits for the user, in
    /// arrival order, and the queue is emptied; with an empty batch there is
    /// nothing to handle and the task is done. A task that has been
    /// superseded gets nothing and changes nothing.
    pub fn debounce_elapsed(&mut self, user_key: &str, task: u64) -> (batch: Vec<String>)
        requires
            old(self).wf(),
        ensures
            final(self).wf(),
            batch@ == old(self)@.batch(user_key@, task),
            final(self)@ == old(self)@.after_debounce(user_key@, task),
    {
        let current = match self.slots.get(user_key) {
            Some(slot) => match slot.task {
                Some(t) => t == task,
                None => false,
            },
            None => false,
        };
        let mut batch: Vec<String> = Vec::new();
        if current {
            match self.slots.get_mut(user_key) {
                Some(slot) => {
                    std::mem::swap(&mut batch, &mut slot.queue);
                    if batch.len() == 0 {
                        slot.task = None;
                    }
                },
                None => {},
            }
        }
        proof {
            let goal = old(self)@.after_debounce(user_key@, task);
            assert(self@.pending =~= goal.pending);
            assert(self@.active =~= goal.active);
        }
        batch
    }

    /// Notes that the handler of `task` returned: the task is no longer at
    /// work for the user, unless another one has taken its place.
    pub fn task_finished(&mut self, user_key: &str, task: u64)
        requires
            old(self).wf(),
        ensures
            final(self).wf(),
            final(self)@ == old(self)@.after_finish(user_key@, task),
    {
        let current = match self.slots.get(user_key) {
            Some(slot) => match slot.task {
                Some(t) => t == task,
                None => false,
            },
            None => false,
        };
        if current {
            match self.slots.get_mut(user_key) {
                Some(slot) => {
                    slot.task = None;
                },
                None => {},
            }
        }
        proof {
            let goal = old(self)@.after_finish(user_key@, task);
            assert(self@.pending =~= goal.pending);
            assert(self@.active =~= goal.active);
        }
    }
}

// ---------------------------------------------------------------------------
// Laws
// ---------------------------------------------------------------------------

/// Three messages of one user within one wait end in one batch: each later
/// message cancels the task of the one before, the last task gets all three
/// in arrival order, and the tasks it superseded get nothing.
pub proof fn law_burst_is_one_batch(
    s: TaskModel,
    key: Seq<char>,
    m1: String,
    m2: String,
    m3: String,
)
    requires
        s.queue(key).len() == 0,
    ensures
        ({
            let d1 = s.dispatch(key);
            let s1 = s.after_message(key, m1);
            let d2 = s1.dispatch(key);
            let s2 = s1.after_message(key, m2);
            let d3 = s2.dispatch(key);
            let s3 = s2.after_message(key, m3);
            &&& d2.cancel == Some(d1.spawn)
            &&& d3.cancel == Some(d2.spawn)
            &&& s3.batch(key, d3.spawn) == seq![m1, m2, m3]
            &&& s3.batch(key, d1.spawn).len() == 0
            &&& s3.batch(key, d2.spawn).len() == 0
            &&& s3.after_debounce(key, d1.spawn) == s3
            &&& s3.after_debounce(key, d2.spawn) == s3
            &&& s3.after_debounce(key, d3.spawn).queue(key).len() == 0
            &&& s3.after_debounce(key, d3.spawn).task(key) == Some(d3.spawn)
        }),
{
    let s1 = s.after_message(key, m1);
    let s2 = s1.after_message(key, m2);
    let s3 = s2.after_message(key, m3);
    assert(s1.queue(key) == seq![m1]);
    assert(s2.queue(key) == seq![m1, m2]);
    assert(s3.queue(key) == seq![m1, m2, m3]);
}

/// Messages of two different users are handled apart: neither cancels the
/// task of the other, and each task gets the message of its own user.
pub proof fn law_users_do_not_interfere(
    s: TaskModel,
    first: Seq<char>,
    second: Seq<char>,
    m1: String,
    m2: String,
)
    requires
        first != second,
        s.fresh(),
        s.queue(first).len() == 0,
        s.queue(second).len() == 0,
    ensures
        ({
            let d1 = s.dispatch(first);
            let s1 = s.after_message(first, m1);
            let d2 = s1.dispatch(second);
            let s2 = s1.after_message(second, m2);
            &&& d2.cancel == s.task(second)
            &&& d2.cancel != Some(d1.spawn)
            &&& s2.task(first) == Some(d1.spawn)
            &&& s2.task(second) == Some(d2.spawn)
            &&& s2.batch(first, d1.spawn) == seq![m1]
            &&& s2.batch(second, d2.spawn) == seq![m2]
            &&& s2.after_debounce(first, d1.spawn).batch(second, d2.spawn) == seq![m2]
        }),
{
    let d1 = s.dispatch(first);
    let s1 = s.after_message(first, m1);
    let d2 = s1.dispatch(second);
    let s2 = s1.after_message(second, m2);
    assert(s1.queue(first) == seq![m1]);
    assert(s2.queue(second) == seq![m2]);
    assert(s2.queue(first) == seq![m1]);
}

/// A message changes the queue and the task of its own user only.
pub proof fn law_message_touches_one_user(
    s: TaskModel,
    key: Seq<char>,
    message: String,
    other: Seq<char>,
)
    requires
        other != key,
    ensures
        s.after_message(key, message).queue(other) == s.queue(other),
        s.after_message(key, message).task(other) == s.task(other),
        s.after_message(key, message).queue(key) == s.queue(key).push(message),
{
}

/// A message that arrives after a task took its batch is not lost: it starts
/// a new wait, cancels the task that is handling the earlier batch, and is
/// handed to the new task.
pub proof fn law_late_message_starts_afresh(
    s: TaskModel,
    key: Seq<char>,
    task: u64,
    message: String,
)
    requires
        s.is_current(key, task),
        s.queue(key).len() > 0,
    ensures
        ({
            let handling = s.after_debounce(key, task);
            let d = handling.dispatch(key);
            let later = handling.after_message(key, message);
            &&& handling.queue(key).len() == 0
            &&& d.cancel == Some(task)
            &&& later.batch(key, d.spawn) == seq![message]
        }),
{
    let handling = s.after_debounce(key, task);
    let later = handling.after_message(key, message);
    assert(later.queue(key) == seq![message]);
}

/// A batch is handed out once: after a task took its batch, the same
/// messages are given to no task again.
pub proof fn law_batch_is_handed_out_once(s: TaskModel, key: Seq<char>, task: u64, again: u64)
    ensures
        s.after_debounce(key, task).batch(key, again).len() == 0 || !s.is_current(key, task),
{
}

/// The numbering of tasks: the state at the start is fresh, and every step
/// keeps a fresh state fresh, a message as long as the numbers have not run
/// out.
pub proof fn law_tasks_stay_fresh(s: TaskModel, key: Seq<char>, message: String, task: u64)
    requires
        s.fresh(),
    ensures
        TaskModel::initial().fresh(),
        s.next_task < u64::MAX ==> s.after_message(key, message).fresh(),
        s.after_debounce(key, task).fresh(),
        s.after_finish(key, task).fresh(),
{
}

} // verus!
