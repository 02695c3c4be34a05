//! What is asked of the assistant behind the channels.

use crate::text::clone_text;
use vstd::prelude::*;

verus! {

/// How a prompt is to be run.
#[derive(Debug)]
pub struct QueryOptions {
    /// The prompt that sets the scene.
    pub system_prompt: Option<String>,
    /// The conversation to go on with.
    pub resume_session: Option<String>,
    /// The directory to work in.
    pub cwd: Option<String>,
    /// Whether the run goes without asking for permissions.
    pub skip_permissions: bool,
}

impl QueryOptions {
    /// Options that ask for nothing in particular.
    pub open spec fn plain() -> QueryOptions {
        QueryOptions {
            system_prompt: None,
            resume_session: None,
            cwd: None,
            skip_permissions: false,
        }
    }

    /// The options of an unattended run under the prompt `context`, going on
    /// with the conversation `session` where one is given.
    pub open spec fn unattended(context: String, session: Option<String>) -> QueryOptions {
        QueryOptions {
            system_prompt: Some(context),
            resume_session: session,
            cwd: None,
            skip_permissions: true,
        }
    }

    /// Options for a run that asks for no permissions, under the prompt
    /// `context`, going on with the conversation `session` where one is
    /// given.
    pub fn for_run(context: String, session: Option<String>) -> (r: Self)
        ensures
            r == QueryOptions::unattended(context, session),
    {
        QueryOptions {
            system_prompt: Some(context),
            resume_session: session,
            cwd: None,
            skip_permissions: true,
        }
    }
}

impl Default for QueryOptions {
    fn default() -> (r: Self)
        ensures
            r == QueryOptions::plain(),
    {
        QueryOptions {
            system_prompt: None,
            resume_session: None,
            cwd: None,
            skip_permissions: false,
        }
    }
}

impl Clone for QueryOptions {
    fn clone(&self) -> (r: Self)
        ensures
            r == *self,
    {
        QueryOptions {
            system_prompt: clone_text(&self.system_prompt),
            resume_session: clone_text(&self.resume_session),
            cwd: clone_text(&self.cwd),
            skip_permissions: self.skip_permissions,
        }
    }
}

} // verus!
