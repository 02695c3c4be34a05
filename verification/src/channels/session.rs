//! Conversations: which session a message goes on with, and what to do when
//! the assistant has forgotten it.
//!
//! Whoever drives this asks [`begin_query`] for the options of the first
//! try, runs the assistant, and hands the outcome to [`after_query`], which
//! either says how to try again or gives the answer for the user.

use crate::backends::QueryOptions;
use crate::pairing::{user_key, user_key_of, PairingStore};
use crate::text::{chars_of, contains_str, contains_text, push_str, str_eq, string_of};
use vstd::prelude::*;

verus! {

/// What the assistant says when it does not know the session it was asked to
/// go on with.
pub const SESSION_LOST: &'static str = "No conversation found with session ID";

/// How a run of the assistant ended.
#[derive(Debug)]
pub enum QueryOutcome {
    /// The assistant answered with this text in this session.
    Answered { response: String, session_id: String },
    /// The run failed for this reason.
    Failed(String),
}

/// What is to be done after a run of the assistant.
#[derive(Debug)]
pub enum QueryStep {
    /// Run the assistant again with these options.
    Retry(QueryOptions),
    /// Send this text to the user; the session is the one to go on with
    /// next time (empty where there is none).
    Done { response: String, session_id: String },
}

/// The text that tells the user of a failure.
pub open spec fn apology(reason: Seq<char>) -> Seq<char> {
    "Sorry, I encountered an error: "@ + reason
}

/// The session that the store holds for a user.
pub open spec fn session_of(store: PairingStore, channel: Seq<char>, user_id: Seq<char>) -> Option<
    String,
> {
    if store.sessions@.contains_key(user_key_of(channel, user_id)) {
        Some(store.sessions@[user_key_of(channel, user_id)])
    } else {
        None
    }
}

/// Whether a failure means that the session is gone and the first try may
/// be repeated without it.
pub open spec fn may_retry(reason: Seq<char>, first_try: bool) -> bool {
    first_try && contains_text(reason, SESSION_LOST@)
}

/// The options of the first try for a message of a user: unattended, under
/// the prompt `context`, going on with the user's session where there is one.
pub fn begin_query(store: &PairingStore, channel: &str, user_id: &str, context: String) -> (r:
    QueryOptions)
    requires
        store.wf(),
    ensures
        r == QueryOptions::unattended(context, session_of(*store, channel@, user_id@)),
{
    let key = user_key(channel, user_id);
    let session = match store.sessions.get(key.as_str()) {
        Some(id) => Some(id.clone()),
        None => None,
    };
    QueryOptions::for_run(context, session)
}

/// Decides what follows a run of the assistant.
///
/// A first try that failed because the session is gone forgets the session
/// and is repeated without one. Any other failure is told to the user. An
/// answer is passed on, and its session is kept for the user unless it is
/// empty.
pub fn after_query(
    store: &mut PairingStore,
    channel: &str,
    user_id: &str,
    context: String,
    outcome: QueryOutcome,
    first_try: bool,
) -> (r: QueryStep)
    requires
        old(store).wf(),
    ensures
        final(store).wf(),
        final(store).pending == old(store).pending,
        final(store).approved == old(store).approved,
        final(store).user_profiles == old(store).user_profiles,
        match outcome {
            QueryOutcome::Failed(reason) => if may_retry(reason@, first_try) {
                &&& r == QueryStep::Retry(QueryOptions::unattended(context, None))
                &&& final(store).sessions@ == old(store).sessions@.remove(
                    user_key_of(channel@, user_id@),
                )
            } else {
                &&& r matches QueryStep::Done { response, session_id }
                &&& response@ == apology(reason@)
                &&& session_id@.len() == 0
                &&& final(store).sessions == old(store).sessions
            },
            QueryOutcome::Answered { response, session_id } => {
                &&& r == (QueryStep::Done { response, session_id })
                &&& if session_id@.len() == 0 {
                    final(store).sessions == old(store).sessions
                } else {
                    final(store).sessions@ =~= old(store).sessions@.insert(
                        user_key_of(channel@, user_id@),
                        final(store).sessions@[user_key_of(channel@, user_id@)],
                    ) && final(store).sessions@.contains_key(user_key_of(channel@, user_id@))
                        && final(store).sessions@[user_key_of(channel@, user_id@)]@ == session_id@
                }
            },
        },
{
    match outcome {
        QueryOutcome::Failed(reason) => {
            let why = chars_of(reason.as_str());
            if first_try && contains_str(why.as_slice(), SESSION_LOST) {
                store.reset_session(channel, user_id);
                return QueryStep::Retry(QueryOptions::for_run(context, None));
            }
            let mut out: Vec<char> = Vec::new();
            push_str(&mut out, "Sorry, I encountered an error: ");
            push_str(&mut out, reason.as_str());
            QueryStep::Done { response: string_of(out.as_slice()), session_id: String::new() }
        },
        QueryOutcome::Answered { response, session_id } => {
            if !session_id.as_str().is_empty() {
                let key = user_key(channel, user_id);
                let known = match store.sessions.get(key.as_str()) {
                    Some(current) => str_eq(current.as_str(), session_id.as_str()),
                    None => false,
                };
                if !known {
                    store.sessions.insert(key, session_id.clone());
                }
            }
            QueryStep::Done { response, session_id }
        },
    }
}

} // verus!
