//! From an incoming message to what is to be done with it.

use crate::channels::commands::{
    add_outcome, command_of, command_view, cron_rest, cron_word, list_outcome, pause_outcome,
    process_cron_command, remove_outcome, resume_outcome, run_outcome, CommandResult,
    CommandView, CronCommand, Shown,
};
use crate::cron::store::CronStore;
use crate::pairing::{code_outcome, live_by, user_key_of, PairingError, PairingStore};
use crate::skills::Skill;
use crate::text::{
    chars_of, is_text, push_str, slice_of, starts_with_str, string_of, trim, trimmed,
};
use vstd::prelude::*;

verus! {

/// A channel the assistant can be reached on.
#[derive(Debug, Clone, Copy)]
pub struct ChannelInfo {
    /// The name used in stored data.
    pub name: &'static str,
    /// The name shown to people.
    pub display_name: &'static str,
}

/// The name and the display name of a supported channel.
pub open spec fn channel_names(name: Seq<char>) -> Option<(Seq<char>, Seq<char>)> {
    if name == "telegram"@ {
        Some(("telegram"@, "Telegram"@))
    } else if name == "signal"@ {
        Some(("signal"@, "Signal"@))
    } else {
        None
    }
}

/// The channel with the given name, among the supported ones.
pub fn get_channel_info(name: &str) -> (r: Option<ChannelInfo>)
    ensures
        channel_names(name@) == match r {
            Some(info) => Some((info.name@, info.display_name@)),
            None => None,
        },
{
    let n = chars_of(name);
    if is_text(n.as_slice(), "telegram") {
        Some(ChannelInfo { name: "telegram", display_name: "Telegram" })
    } else if is_text(n.as_slice(), "signal") {
        Some(ChannelInfo { name: "signal", display_name: "Signal" })
    } else {
        None
    }
}

/// What is to be done with a message.
#[derive(Debug)]
pub enum MessageAction {
    /// Send this text to the user.
    SendResponse(String),
    /// Run this job now.
    ExecuteCronJob { job_id: String },
    /// Go on with the introduction, with this as the user's message.
    Onboarding { message: String },
    /// Hand this text to the assistant.
    QueryClaude { text: String },
    /// The user is not let in yet: send the pairing code.
    NeedsPairing { code: String },
    /// Nothing.
    Ignore,
}

/// The mathematical value of a [`MessageAction`].
pub enum ActionView {
    SendResponse(Seq<char>),
    ExecuteCronJob(Seq<char>),
    Onboarding(Seq<char>),
    QueryClaude(Seq<char>),
    NeedsPairing(Seq<char>),
    Ignore,
}

impl View for MessageAction {
    type V = ActionView;

    open spec fn view(&self) -> ActionView {
        match self {
            MessageAction::SendResponse(text) => ActionView::SendResponse(text@),
            MessageAction::ExecuteCronJob { job_id } => ActionView::ExecuteCronJob(job_id@),
            MessageAction::Onboarding { message } => ActionView::Onboarding(message@),
            MessageAction::QueryClaude { text } => ActionView::QueryClaude(text@),
            MessageAction::NeedsPairing { code } => ActionView::NeedsPairing(code@),
            MessageAction::Ignore => ActionView::Ignore,
        }
    }
}

/// The view of the result of deciding on a message.
pub open spec fn action_view(r: Result<MessageAction, String>) -> Result<ActionView, Seq<char>> {
    match r {
        Ok(action) => Ok(action@),
        Err(reason) => Err(reason@),
    }
}

// ---------------------------------------------------------------------------
// Text with images
// ---------------------------------------------------------------------------

/// Whether a content type names a kind of image that can be handed to the
/// assistant: JPEG, PNG, GIF or WebP.
pub open spec fn is_image_type(content_type: Seq<char>) -> bool {
    content_type == "image/jpeg"@ || content_type == "image/png"@ || content_type == "image/gif"@
        || content_type == "image/webp"@
}

/// Whether a content type names a kind of image that can be handed to the
/// assistant.
pub fn is_image_content_type(content_type: &str) -> (r: bool)
    ensures
        r == is_image_type(content_type@),
{
    let kind = chars_of(content_type);
    is_text(kind.as_slice(), "image/jpeg") || is_text(kind.as_slice(), "image/png") || is_text(
        kind.as_slice(),
        "image/gif",
    ) || is_text(kind.as_slice(), "image/webp")
}

/// The text after the image at position `i` has been added: an image whose
/// path is no text adds nothing; the first thing in an empty text is the
/// image alone; the image at position 0 goes on a paragraph of its own; any
/// other follows after a space.
pub open spec fn with_image(text: Seq<char>, i: int, path: Option<String>) -> Seq<char> {
    match path {
        None => text,
        Some(p) => if text.len() == 0 {
            "@"@ + p@
        } else if i == 0 {
            text + "\n\n@"@ + p@
        } else {
            text + " @"@ + p@
        },
    }
}

/// The text with the first `n` images added.
pub open spec fn with_images(text: Seq<char>, paths: Seq<Option<String>>, n: nat) -> Seq<char>
    decreases n,
{
    if n == 0 || n > paths.len() {
        text
    } else {
        with_image(with_images(text, paths, (n - 1) as nat), n - 1, paths[n - 1])
    }
}

/// Joins a text and the paths of the images sent with it, each path marked
/// with `@`. A path that cannot be written as text is `None` and is left out.
pub fn build_text_with_images(text: &str, image_paths: &[Option<String>]) -> (r: String)
    ensures
        r@ == with_images(text@, image_paths@, image_paths@.len()),
{
    let mut out = chars_of(text);
    let mut i: usize = 0;
    while i < image_paths.len()
        invariant
            i <= image_paths@.len(),
            out@ == with_images(text@, image_paths@, i as nat),
        decreases image_paths@.len() - i,
    {
        match &image_paths[i] {
            Some(path) => {
                if out.len() == 0 {
                    push_str(&mut out, "@");
                } else if i == 0 {
                    push_str(&mut out, "\n\n@");
                } else {
                    push_str(&mut out, " @");
                }
                push_str(&mut out, path.as_str());
            },
            None => {},
        }
        i += 1;
    }
    string_of(out.as_slice())
}

// ---------------------------------------------------------------------------
// Commands
// ---------------------------------------------------------------------------

/// The answer to `/commands`.
pub const COMMANDS: &'static str = "Available commands:\n\n/commands - Show available commands\n/new - Start a new conversation\n/skills - List available skills\n/cron - Manage scheduled jobs";

/// The answer to `/new` before the introduction is over.
pub const FINISH_ONBOARDING: &'static str = "Please complete the onboarding first. Say \"hello\" to get started!";

/// The answer to `/new`.
pub const FRESH_START: &'static str = "Starting fresh! Our previous conversation has been cleared.";

/// The lines of the first `n` skills in the answer to `/skills`.
pub open spec fn skill_lines(skills: Seq<Skill>, n: nat) -> Seq<char>
    decreases n,
{
    if n == 0 || n > skills.len() {
        Seq::empty()
    } else {
        skill_lines(skills, (n - 1) as nat) + "\n• "@ + skills[n - 1].name@ + " - "@
            + skills[n - 1].description@
    }
}

/// The answer to `/skills`.
pub open spec fn skills_text(skills: Seq<Skill>) -> Seq<char> {
    if skills.len() == 0 {
        "No skills installed."@
    } else {
        "Available skills:\n"@ + skill_lines(skills, skills.len())
    }
}

/// The arguments of a `/cron` message: what follows `/cron`, trimmed.
pub open spec fn cron_args(text: Seq<char>) -> Seq<char> {
    trim(trim(text).skip(5))
}

/// Whether nothing of the two stores changed.
pub open spec fn untouched(
    pairing_before: PairingStore,
    pairing_after: PairingStore,
    cron_before: CronStore,
    cron_after: CronStore,
) -> bool {
    pairing_after == pairing_before && cron_after.same_as(cron_before)
}

/// What a `/cron` message does: see the outcome of each command.
pub open spec fn cron_outcome(
    pre: CronStore,
    post: CronStore,
    r: Result<CommandView, Seq<char>>,
    channel: Seq<char>,
    user_id: Seq<char>,
    args: Seq<char>,
) -> bool {
    match command_of(cron_word(args)) {
        CronCommand::List => list_outcome(pre, post, r, channel, user_id),
        CronCommand::Add => exists|resolved: Option<u64>, key: Seq<char>, shown: Shown| #[trigger]
            add_outcome(pre, post, r, channel, user_id, cron_rest(args), resolved, key, shown),
        CronCommand::Remove => remove_outcome(pre, post, r, channel, user_id, cron_rest(args)),
        CronCommand::Run => run_outcome(pre, post, r, channel, user_id, cron_rest(args)),
        CronCommand::Pause => pause_outcome(pre, post, r, channel, user_id, cron_rest(args)),
        CronCommand::Resume => resume_outcome(pre, post, r, channel, user_id, cron_rest(args)),
        CronCommand::Help => post.same_as(pre) && r == Ok::<CommandView, Seq<char>>(
            CommandView::Response(crate::channels::commands::HELP@),
        ),
    }
}

/// What a message does when it is read as a command.
///
/// `/commands` and `/skills` answer with a list. `/new` forgets the user's
/// session once the introduction is over. Everything that starts with `/cron`
/// is a job command. Anything else is no command and changes nothing.
pub open spec fn command_outcome(
    pairing_before: PairingStore,
    pairing_after: PairingStore,
    cron_before: CronStore,
    cron_after: CronStore,
    skills: Seq<Skill>,
    channel: Seq<char>,
    user_id: Seq<char>,
    text: Seq<char>,
    onboarding_complete: bool,
    r: Result<CommandView, Seq<char>>,
) -> bool {
    let t = trim(text);
    let same = untouched(pairing_before, pairing_after, cron_before, cron_after);
    if t == "/commands"@ {
        same && r == Ok::<CommandView, Seq<char>>(CommandView::Response(COMMANDS@))
    } else if t == "/new"@ {
        if !onboarding_complete {
            same && r == Ok::<CommandView, Seq<char>>(
                CommandView::Response(FINISH_ONBOARDING@),
            )
        } else {
            &&& cron_after.same_as(cron_before)
            &&& pairing_after.pending == pairing_before.pending
            &&& pairing_after.approved == pairing_before.approved
            &&& pairing_after.user_profiles == pairing_before.user_profiles
            &&& pairing_after.sessions@ == pairing_before.sessions@.remove(
                user_key_of(channel, user_id),
            )
            &&& r == Ok::<CommandView, Seq<char>>(CommandView::Response(FRESH_START@))
        }
    } else if t == "/skills"@ {
        same && r == Ok::<CommandView, Seq<char>>(CommandView::Response(skills_text(skills)))
    } else if "/cron"@.is_prefix_of(t) {
        pairing_after == pairing_before && cron_outcome(
            cron_before,
            cron_after,
            r,
            channel,
            user_id,
            cron_args(text),
        )
    } else {
        same && r == Ok::<CommandView, Seq<char>>(CommandView::NotACommand)
    }
}

/// Carries out the message if it is a command.
///
/// `skills` are the skills that are installed.
pub fn process_command(
    store: &mut PairingStore,
    jobs: &mut CronStore,
    skills: &[Skill],
    channel: &str,
    user_id: &str,
    text: &str,
    onboarding_complete: bool,
) -> (r: Result<CommandResult, String>)
    requires
        old(store).wf(),
        old(jobs).wf(),
    ensures
        final(store).wf(),
        final(jobs).wf(),
        command_outcome(
            *old(store),
            *final(store),
            *old(jobs),
            *final(jobs),
            skills@,
            channel@,
            user_id@,
            text@,
            onboarding_complete,
            command_view(r),
        ),
{
    let raw = chars_of(text);
    let t = trimmed(raw.as_slice());
    if is_text(t.as_slice(), "/commands") {
        return Ok(CommandResult::Response(COMMANDS.to_owned()));
    }
    if is_text(t.as_slice(), "/new") {
        if !onboarding_complete {
            return Ok(CommandResult::Response(FINISH_ONBOARDING.to_owned()));
        }
        store.reset_session(channel, user_id);
        return Ok(CommandResult::Response(FRESH_START.to_owned()));
    }
    if is_text(t.as_slice(), "/skills") {
        if skills.len() == 0 {
            return Ok(CommandResult::Response("No skills installed.".to_owned()));
        }
        let mut out: Vec<char> = Vec::new();
        push_str(&mut out, "Available skills:\n");
        let mut i: usize = 0;
        while i < skills.len()
            invariant
                i <= skills@.len(),
                out@ == "Available skills:\n"@ + skill_lines(skills@, i as nat),
            decreases skills@.len() - i,
        {
            push_str(&mut out, "\n• ");
            push_str(&mut out, skills[i].name.as_str());
            push_str(&mut out, " - ");
            push_str(&mut out, skills[i].description.as_str());
            i += 1;
        }
        return Ok(CommandResult::Response(string_of(out.as_slice())));
    }
    if starts_with_str(t.as_slice(), "/cron") {
        proof {
            reveal_strlit("/cron");
        }
        let args = trimmed(slice_of(t.as_slice(), 5, t.len()).as_slice());
        let args_text = string_of(args.as_slice());
        return process_cron_command(jobs, channel, user_id, args_text.as_str());
    }
    Ok(CommandResult::NotACommand)
}

// ---------------------------------------------------------------------------
// Deciding on a message
// ---------------------------------------------------------------------------

/// The command result that stands behind a decision: a response or a job to
/// run came from a command, an error came from a command, everything else
/// means that the message was no command.
pub open spec fn command_behind(r: Result<ActionView, Seq<char>>) -> Result<
    CommandView,
    Seq<char>,
> {
    match r {
        Ok(ActionView::SendResponse(text)) => Ok(CommandView::Response(text)),
        Ok(ActionView::ExecuteCronJob(id)) => Ok(CommandView::CronRun(id)),
        Err(reason) => Err(reason),
        _ => Ok(CommandView::NotACommand),
    }
}

/// What is done with a message that is no command.
pub open spec fn plain_action(text: Seq<char>, onboarding_complete: bool) -> ActionView {
    let t = trim(text);
    if !onboarding_complete {
        if t == "/start"@ {
            ActionView::Onboarding("hi"@)
        } else {
            ActionView::Onboarding(t)
        }
    } else if t == "/start"@ || t.len() == 0 {
        ActionView::Ignore
    } else {
        ActionView::QueryClaude(t)
    }
}

/// What is done with a message of a user who is let in.
///
/// A command is carried out and answered. Any other message goes to the
/// introduction while that is not over, and to the assistant afterwards,
/// but for `/start` and the empty message, which are ignored then.
pub open spec fn approved_outcome(
    pairing_before: PairingStore,
    pairing_after: PairingStore,
    cron_before: CronStore,
    cron_after: CronStore,
    skills: Seq<Skill>,
    channel: Seq<char>,
    user_id: Seq<char>,
    text: Seq<char>,
    onboarding_complete: bool,
    r: Result<ActionView, Seq<char>>,
) -> bool {
    &&& command_outcome(
        pairing_before,
        pairing_after,
        cron_before,
        cron_after,
        skills,
        channel,
        user_id,
        text,
        onboarding_complete,
        command_behind(r),
    )
    &&& command_behind(r) == Ok::<CommandView, Seq<char>>(CommandView::NotACommand) ==> r == Ok::<
        ActionView,
        Seq<char>,
    >(plain_action(text, onboarding_complete))
}

/// The pairing code in a decision.
pub open spec fn code_in(r: Result<MessageAction, String>) -> Option<Seq<char>> {
    match r {
        Ok(MessageAction::NeedsPairing { code }) => Some(code@),
        _ => None,
    }
}

/// Decides what is to be done with a message of `user_id` on `channel`.
///
/// A user who is not let in gets a pairing code: the one of their waiting
/// request, or a new one. For everyone else see [`approved_outcome`].
pub fn determine_action(
    channel: &str,
    user_id: &str,
    text: &str,
    store: &mut PairingStore,
    jobs: &mut CronStore,
    skills: &[Skill],
    username: Option<String>,
    display_name: Option<String>,
    onboarding_complete: bool,
) -> (r: Result<MessageAction, String>)
    requires
        old(store).wf(),
        old(jobs).wf(),
    ensures
        final(store).wf(),
        final(jobs).wf(),
        !old(store).approves(channel@, user_id@) ==> {
            &&& final(jobs).same_as(*old(jobs))
            &&& final(store).approved == old(store).approved
            &&& final(store).sessions == old(store).sessions
            &&& final(store).user_profiles == old(store).user_profiles
            &&& exists|now: u64| #[trigger]
                code_outcome(
                    old(store).pending@.filter(live_by(now)),
                    final(store).pending@,
                    channel@,
                    user_id@,
                    username,
                    display_name,
                    now,
                    code_in(r),
                )
            &&& match r {
                Ok(action) => action@ is NeedsPairing,
                Err(reason) => reason@ == PairingError::CodesExhausted.text(),
            }
        },
        old(store).approves(channel@, user_id@) ==> approved_outcome(
            *old(store),
            *final(store),
            *old(jobs),
            *final(jobs),
            skills@,
            channel@,
            user_id@,
            text@,
            onboarding_complete,
            action_view(r),
        ),
{
    if !store.is_approved(channel, user_id) {
        let ghost before = store.pending@;
        let answer = store.get_or_create_pending(channel, user_id, username, display_name);
        let ghost now = choose|now: u64| #[trigger]
            crate::pairing::pending_outcome(
                before.filter(live_by(now)),
                store.pending@,
                channel@,
                user_id@,
                username,
                display_name,
                now,
                answer,
            );
        let r = match answer {
            Ok((code, _)) => Ok(MessageAction::NeedsPairing { code }),
            Err(e) => Err(e.message()),
        };
        assert(code_outcome(
            before.filter(live_by(now)),
            store.pending@,
            channel@,
            user_id@,
            username,
            display_name,
            now,
            code_in(r),
        ));
        return r;
    }
    match process_command(store, jobs, skills, channel, user_id, text, onboarding_complete) {
        Err(reason) => {
            return Err(reason);
        },
        Ok(CommandResult::Response(response)) => {
            return Ok(MessageAction::SendResponse(response));
        },
        Ok(CommandResult::CronRun(job_id)) => {
            return Ok(MessageAction::ExecuteCronJob { job_id });
        },
        Ok(CommandResult::NotACommand) => {},
    }
    let raw = chars_of(text);
    let t = trimmed(raw.as_slice());
    let start = is_text(t.as_slice(), "/start");
    if !onboarding_complete {
        let message = if start {
            "hi".to_owned()
        } else {
            string_of(t.as_slice())
        };
        return Ok(MessageAction::Onboarding { message });
    }
    if start || t.len() == 0 {
        return Ok(MessageAction::Ignore);
    }
    Ok(MessageAction::QueryClaude { text: string_of(t.as_slice()) })
}

} // verus!
