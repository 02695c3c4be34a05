//! The introduction of a new user and the prompt that tells the assistant
//! who it is, whom it talks to and what it can do.

use crate::config::{join_path, join_spec};
use crate::skills::{format_skills_spec, format_skills_xml, Skill};
use crate::text::{
    chars_of, is_text, join_lines, join_with_newlines, push_blank, push_chars, push_str, push_text,
    split_lines, starts_with_str, string_of, strip_all_prefix, text_lines, texts_of, trim,
    trimmed, without_prefixes,
};
use crate::trusted::{lowercase_of, to_lowercase};
use vstd::prelude::*;

verus! {

/// The introduction prompt of the first phase, up to the path of the identity file.
pub const IDENTITY_PROMPT_HEAD: &'static str = "You are a new AI assistant being set up by a user. You need to learn your identity before you can help them.\n\nOn the FIRST message, introduce yourself briefly and ask ALL THREE questions at once:\n1. What's my name?\n2. What's my vibe? (personality/energy)\n3. What's my spirit animal?\n\nKeep it short and friendly. Don't be overly excited or use emojis.\n\nExample first response:\n\"Hey! I'm your new assistant, but I need an identity first. Can you tell me:\n1. What should my name be?\n2. What's my vibe?\n3. What's my spirit animal?\"\n\nAfter they answer, if any answer is missing or unclear, ask for clarification. Once you have all three answers, write them to: ";

/// The introduction prompt of the first phase, after the path of the identity file.
pub const IDENTITY_PROMPT_TAIL: &'static str = "\n\nUse this exact format:\n```\n# IDENTITY.md - Agent Identity\n\n- Name: [name]\n- Vibe: [short description]\n- Spirit Animal: [animal]\n```\n\nAfter writing the file, tell them \"Now tell me about yourself - the more I know about you the better I'll be able to help, so don't be shy!\"\n\nIMPORTANT: Do NOT write the file until you have all three answers.";

/// The introduction prompt of the second phase, up to the identity.
pub const USER_PROMPT_HEAD: &'static str = "You are an AI assistant with this identity:\n\n";

/// The introduction prompt of the second phase, between the identity and
/// the path of the profile file.
pub const USER_PROMPT_MIDDLE: &'static str = "\n\nYou just finished setting up your identity. Now ask the user to tell you about themselves.\n\nKeep it casual and short. Example:\n\"Now tell me about yourself - the more I know about you the better I'll be able to help, so don't be shy!\"\n\nWhen they respond, write their info to: ";

/// The introduction prompt of the second phase, after the path of the profile file.
pub const USER_PROMPT_TAIL: &'static str = "\n\nUse this format:\n```\n# USER.md - User Profile\n\n- Name: [their name]\n- [any other info they shared, one item per line]\n```\n\nAfter writing the file, greet them by name and ask how you can help.\n\nIMPORTANT:\n- Name is required, but accept whatever else they share\n- Do NOT ask follow-up questions about their profile\n- After saving, just move on to helping them";

/// What the assistant is told it can do.
pub const CAPABILITIES: &'static str = "## Capabilities\nYou can:\n- Have conversations and answer questions\n- Help with writing, brainstorming, and thinking through problems\n- Read and write files in your workspace\n- Run shell commands when needed\n- Search the web for current information\n";

/// The rule for every messaging channel, and the heading of the formatting rules.
pub const CHANNEL_RULE: &'static str = "IMPORTANT: Never send streaming/partial replies to external messaging surfaces.\n\n### Text Formatting";

/// Formatting rules for Signal.
pub const FORMAT_SIGNAL: &'static str = "Do NOT use any text formatting (no markdown, no asterisks, no underscores).\nSignal requires special APIs for formatting that aren't available here.\nJust use plain text.\n";

/// Formatting rules for Telegram.
pub const FORMAT_TELEGRAM: &'static str = "Telegram supports standard markdown:\n- **bold** or __bold__\n- *italic* or _italic_\n- ~strikethrough~\n- `monospace` and ```code blocks```\n- [links](url)\n";

/// Formatting rules for every other channel.
pub const FORMAT_OTHER: &'static str = "Use plain text formatting.\n";

/// The heading of the part on skills.
pub const SKILLS_HEAD: &'static str = "## Skills\nSkills extend your capabilities. They live in the skills/ folder of your workspace.\n";

/// The heading of the list of installed skills.
pub const SKILLS_AVAILABLE: &'static str = "### Available Skills\nTo use a skill, read its SKILL.md file at the location shown, then follow its instructions.\n";

/// What stands in place of the list where no skill is installed.
pub const SKILLS_NONE: &'static str = "No skills are currently installed.\n";

/// How a skill is made.
pub const CREATING_SKILLS: &'static str = "### Creating Skills\nWhen the user asks about something you can't do directly (like accessing email, calendar, APIs, etc.), offer to create a skill for it.\n\nEach skill is a folder in skills/ containing:\n1. **SKILL.md** (required) - Instructions with YAML frontmatter:\n   ```\n   ---\n   name: my-skill\n   description: What this skill does\n   ---\n   # My Skill\n   Instructions for using this skill...\n   ```\n2. **index.ts** - The implementation (TypeScript/Bun preferred)\n3. **config.json** (optional) - Configuration/secrets\n";

/// How memories are kept.
pub const MEMORY_RULES: &'static str = "\nWhen you learn something important about the user (preferences, projects they're working on, significant life events, technical details they share), you can save it as a memory file.\n\nTo save a memory:\n1. Ask the user if they'd like you to remember this\n2. If they agree, write a markdown file to the memories directory\n3. Use a descriptive filename like `project-foo.md` or `preferences.md`\n4. Format the content clearly with headers and bullet points\n\nDO ask before saving memories. DON'T save trivial information.\n";

/// The heading of the memories found for a message.
pub const MEMORY_HITS_HEAD: &'static str = "### Relevant Memories\nThe following memories may be relevant to this conversation:\n";

/// How far the introduction of a user has come.
#[derive(Debug, Clone, Copy, PartialEq, Eq)]
pub enum Phase {
    /// The assistant has no identity for this user yet.
    Identity,
    /// The assistant knows who it is, but not whom it talks to.
    User,
    /// The introduction is over.
    Complete,
}

/// The name of the directory of a user: channel, an underscore, user.
pub open spec fn user_dir_name(channel: Seq<char>, user_id: Seq<char>) -> Seq<char> {
    channel + "_"@ + user_id
}

/// The directory of a user below the directory `base`.
pub open spec fn user_dir_spec(base: Seq<char>, channel: Seq<char>, user_id: Seq<char>) -> Seq<
    char,
> {
    join_spec(join_spec(base, "users"@), user_dir_name(channel, user_id))
}

/// The directory of a user below the directory `base`.
pub fn user_dir(base: &str, channel: &str, user_id: &str) -> (r: String)
    ensures
        r@ == user_dir_spec(base@, channel@, user_id@),
{
    let users = join_path(base, "users");
    let mut name: Vec<char> = Vec::new();
    push_str(&mut name, channel);
    push_str(&mut name, "_");
    push_str(&mut name, user_id);
    let name_text = string_of(name.as_slice());
    join_path(users.as_str(), name_text.as_str())
}

/// The file that holds the assistant's identity for a user.
pub fn identity_path_for_user(base: &str, channel: &str, user_id: &str) -> (r: String)
    ensures
        r@ == join_spec(user_dir_spec(base@, channel@, user_id@), "IDENTITY.md"@),
{
    let dir = user_dir(base, channel, user_id);
    join_path(dir.as_str(), "IDENTITY.md")
}

/// The file that holds the profile of a user.
pub fn user_path_for_user(base: &str, channel: &str, user_id: &str) -> (r: String)
    ensures
        r@ == join_spec(user_dir_spec(base@, channel@, user_id@), "USER.md"@),
{
    let dir = user_dir(base, channel, user_id);
    join_path(dir.as_str(), "USER.md")
}

/// The phase of a user, given whether the identity file and the profile
/// file are there.
pub open spec fn phase_of(identity_configured: bool, user_configured: bool) -> Phase {
    if !identity_configured {
        Phase::Identity
    } else if !user_configured {
        Phase::User
    } else {
        Phase::Complete
    }
}

/// The phase of a user: the identity comes first, the profile second.
pub fn current_phase_for_user(identity_configured: bool, user_configured: bool) -> (r: Phase)
    ensures
        r == phase_of(identity_configured, user_configured),
{
    if !identity_configured {
        Phase::Identity
    } else if !user_configured {
        Phase::User
    } else {
        Phase::Complete
    }
}

/// Whether the introduction of a user is over.
pub fn is_complete_for_user(identity_configured: bool, user_configured: bool) -> (r: bool)
    ensures
        r == (identity_configured && user_configured),
{
    match current_phase_for_user(identity_configured, user_configured) {
        Phase::Complete => true,
        _ => false,
    }
}

/// The prompt of a phase of the introduction.
pub open spec fn system_prompt_spec(
    phase: Phase,
    identity_path: Seq<char>,
    identity: Seq<char>,
    user_path: Seq<char>,
) -> Seq<char> {
    match phase {
        Phase::Identity => IDENTITY_PROMPT_HEAD@ + identity_path + IDENTITY_PROMPT_TAIL@,
        Phase::User => USER_PROMPT_HEAD@ + identity + USER_PROMPT_MIDDLE@ + user_path
            + USER_PROMPT_TAIL@,
        Phase::Complete => Seq::empty(),
    }
}

/// The prompt with which the assistant asks for its identity and writes it
/// to `identity_path`.
pub fn identity_system_prompt(identity_path: &str) -> (r: String)
    ensures
        r@ == IDENTITY_PROMPT_HEAD@ + identity_path@ + IDENTITY_PROMPT_TAIL@,
{
    let mut out: Vec<char> = Vec::new();
    push_str(&mut out, IDENTITY_PROMPT_HEAD);
    push_str(&mut out, identity_path);
    push_str(&mut out, IDENTITY_PROMPT_TAIL);
    string_of(out.as_slice())
}

/// The prompt with which the assistant, knowing its identity, asks the user
/// about themselves and writes the answer to `user_path`.
pub fn user_system_prompt(identity: &str, user_path: &str) -> (r: String)
    ensures
        r@ == USER_PROMPT_HEAD@ + identity@ + USER_PROMPT_MIDDLE@ + user_path@ + USER_PROMPT_TAIL@,
{
    let mut out: Vec<char> = Vec::new();
    push_str(&mut out, USER_PROMPT_HEAD);
    push_str(&mut out, identity);
    push_str(&mut out, USER_PROMPT_MIDDLE);
    push_str(&mut out, user_path);
    push_str(&mut out, USER_PROMPT_TAIL);
    string_of(out.as_slice())
}

/// The prompt of a phase of the introduction; none once it is over.
pub fn system_prompt_for_user(phase: Phase, identity_path: &str, identity: &str, user_path: &str)
    -> (r: String)
    ensures
        r@ == system_prompt_spec(phase, identity_path@, identity@, user_path@),
{
    match phase {
        Phase::Identity => identity_system_prompt(identity_path),
        Phase::User => user_system_prompt(identity, user_path),
        Phase::Complete => String::new(),
    }
}

// ---------------------------------------------------------------------------
// The context prompt
// ---------------------------------------------------------------------------

/// A memory that was found for a message.
#[derive(Debug)]
pub struct MemoryHit {
    /// The file the memory comes from.
    pub path: String,
    /// The part of the file that was found.
    pub chunk: String,
    /// Whether the memory is close enough to the message to be shown.
    pub relevant: bool,
}

/// What the context prompt is made from.
#[derive(Debug)]
pub struct PromptContext {
    /// The channel as it is shown to people, where one is known.
    pub channel_display: Option<String>,
    /// The identity file of the user, where there is one.
    pub identity: Option<String>,
    /// The profile file of the user, where there is one.
    pub user_content: Option<String>,
    /// The persona file, where there is one.
    pub persona: Option<String>,
    /// The installed skills; `None` where they could not be listed.
    pub skills: Option<Vec<Skill>>,
    /// Where the bundled runtime for skills lies.
    pub bun_path: String,
    /// The directory the assistant works in.
    pub workspace: String,
    /// Where the memories of the user are kept; `None` where no user is
    /// known.
    pub memories_dir: Option<String>,
    /// What a search of the memories found for the message; `None` where
    /// nothing was searched.
    pub memory_hits: Option<Vec<MemoryHit>>,
}

/// Position of the first line that begins with `- Name:`, counted from
/// `from`; the number of lines where there is none.
pub open spec fn name_line(lines: Seq<Seq<char>>, from: int) -> int
    decreases lines.len() - from,
{
    if from < 0 || from >= lines.len() {
        lines.len() as int
    } else if "- Name:"@.is_prefix_of(lines[from]) {
        from
    } else {
        name_line(lines, from + 1)
    }
}

/// The name the assistant goes by: what the first `- Name:` line of the
/// identity says, or `Cica` where there is no identity or no such line.
pub open spec fn assistant_name_spec(identity: Option<String>) -> Seq<char> {
    match identity {
        None => "Cica"@,
        Some(content) => {
            let lines = text_lines(content@);
            let at = name_line(lines, 0);
            if at < lines.len() {
                trim(strip_all_prefix(lines[at], "- Name:"@))
            } else {
                "Cica"@
            }
        },
    }
}

/// The name the assistant goes by.
pub fn assistant_name(identity: &Option<String>) -> (r: Vec<char>)
    ensures
        r@ == assistant_name_spec(*identity),
{
    match identity {
        None => chars_of("Cica"),
        Some(content) => {
            let raw = chars_of(content.as_str());
            let lines = split_lines(raw.as_slice());
            let mut i: usize = 0;
            while i < lines.len()
                invariant
                    i <= lines@.len(),
                    *identity == Some(*content),
                    texts_of(lines@) == text_lines(content@),
                    name_line(texts_of(lines@), 0) == name_line(texts_of(lines@), i as int),
                decreases lines@.len() - i,
            {
                assert(texts_of(lines@)[i as int] == lines@[i as int]@);
                if starts_with_str(lines[i].as_slice(), "- Name:") {
                    let marker = chars_of("- Name:");
                    let rest = without_prefixes(lines[i].as_slice(), marker.as_slice());
                    return trimmed(rest.as_slice());
                }
                i += 1;
            }
            chars_of("Cica")
        },
    }
}

/// The opening of the prompt.
pub open spec fn opening_line(name: Seq<char>, channel_display: Option<String>) -> Seq<char> {
    "You are "@ + name
        + ", a personal AI assistant. You are chatting with your user via a messaging app"@
        + (match channel_display {
        Some(c) => " (via "@ + c@ + ")"@,
        None => Seq::<char>::empty(),
    }) + "."@
}

/// The formatting rules of a channel, chosen by its name in lower case.
pub open spec fn format_rules(channel: Seq<char>) -> Seq<char> {
    if lowercase_of(channel) == "signal"@ {
        FORMAT_SIGNAL@
    } else if lowercase_of(channel) == "telegram"@ {
        FORMAT_TELEGRAM@
    } else {
        FORMAT_OTHER@
    }
}

/// The part on the messaging channel; nothing where no channel is known.
pub open spec fn channel_part(channel_display: Option<String>) -> Seq<Seq<char>> {
    match channel_display {
        None => Seq::empty(),
        Some(c) => seq![
            "## Messaging Channel"@,
            "You are currently communicating via "@ + c@ + "."@,
            CHANNEL_RULE@,
            format_rules(c@),
        ],
    }
}

/// The list of installed skills; nothing where they could not be listed.
pub open spec fn skills_part(skills: Option<Vec<Skill>>) -> Seq<Seq<char>> {
    match skills {
        None => Seq::empty(),
        Some(list) => if list@.len() > 0 {
            seq![SKILLS_AVAILABLE@, format_skills_spec(list@), Seq::<char>::empty()]
        } else {
            seq![SKILLS_NONE@]
        },
    }
}

/// A file of the user with its heading; nothing where there is no file.
pub open spec fn file_part(heading: Seq<char>, content: Option<String>) -> Seq<Seq<char>> {
    match content {
        None => Seq::empty(),
        Some(text) => seq![heading, text@, Seq::<char>::empty()],
    }
}

/// The memories among the first `n` hits that are to be shown.
pub open spec fn hit_lines(hits: Seq<MemoryHit>, n: nat) -> Seq<Seq<char>>
    decreases n,
{
    if n == 0 || n > hits.len() {
        Seq::empty()
    } else if hits[n - 1].relevant {
        hit_lines(hits, (n - 1) as nat) + seq![
            "**From "@ + hits[n - 1].path@ + ":**"@,
            hits[n - 1].chunk@,
            Seq::<char>::empty(),
        ]
    } else {
        hit_lines(hits, (n - 1) as nat)
    }
}

/// The part on memories; nothing where no user is known.
pub open spec fn memory_part(memories_dir: Option<String>, hits: Option<Vec<MemoryHit>>) -> Seq<
    Seq<char>,
> {
    match memories_dir {
        None => Seq::empty(),
        Some(dir) => seq![
            "## Memories"@,
            "You can save important information about conversations to your memory system at: "@
                + dir@,
            MEMORY_RULES@,
        ] + (match hits {
            Some(list) => if list@.len() > 0 {
                seq![MEMORY_HITS_HEAD@] + hit_lines(list@, list@.len())
            } else {
                Seq::<Seq<char>>::empty()
            },
            None => Seq::<Seq<char>>::empty(),
        }),
    }
}

/// The parts of the context prompt, in order.
pub open spec fn context_parts(ctx: PromptContext) -> Seq<Seq<char>> {
    seq![
        opening_line(assistant_name_spec(ctx.identity), ctx.channel_display),
        Seq::<char>::empty(),
        CAPABILITIES@,
    ] + channel_part(ctx.channel_display) + seq![SKILLS_HEAD@] + skills_part(ctx.skills) + seq![
        CREATING_SKILLS@,
        "Use the bundled Bun at: "@ + ctx.bun_path@,
        Seq::<char>::empty(),
        "## Workspace"@,
        "Your workspace directory is: "@ + ctx.workspace@,
        Seq::<char>::empty(),
        "# Project Context"@,
        Seq::<char>::empty(),
    ] + file_part("## IDENTITY.md"@, ctx.identity) + file_part("## USER.md"@, ctx.user_content)
        + file_part("## PERSONA.md"@, ctx.persona) + memory_part(ctx.memories_dir, ctx.memory_hits)
}

/// A text made of a head and what follows it.
fn headed(head: &str, rest: &str) -> (r: Vec<char>)
    ensures
        r@ == head@ + rest@,
{
    let mut out: Vec<char> = Vec::new();
    push_str(&mut out, head);
    push_str(&mut out, rest);
    out
}

/// A text made of a head and a tail around a middle.
fn framed(head: &str, middle: &[char], tail: &str) -> (r: Vec<char>)
    ensures
        r@ == head@ + middle@ + tail@,
{
    let mut out: Vec<char> = Vec::new();
    push_str(&mut out, head);
    crate::text::push_all(&mut out, middle);
    push_str(&mut out, tail);
    out
}

/// Adds the part on the messaging channel.
fn push_channel_part(parts: &mut Vec<Vec<char>>, channel_display: &Option<String>)
    ensures
        texts_of(final(parts)@) == texts_of(old(parts)@) + channel_part(*channel_display),
{
    match channel_display {
        None => {},
        Some(c) => {
            let name = chars_of(c.as_str());
            push_text(parts, "## Messaging Channel");
            push_chars(parts, framed("You are currently communicating via ", name.as_slice(), "."));
            push_text(parts, CHANNEL_RULE);
            let lower = to_lowercase(c.as_str());
            let lower_chars = chars_of(lower.as_str());
            if is_text(lower_chars.as_slice(), "signal") {
                push_text(parts, FORMAT_SIGNAL);
            } else if is_text(lower_chars.as_slice(), "telegram") {
                push_text(parts, FORMAT_TELEGRAM);
            } else {
                push_text(parts, FORMAT_OTHER);
            }
        },
    }
}

/// Adds the list of installed skills.
fn push_skills_part(parts: &mut Vec<Vec<char>>, skills: &Option<Vec<Skill>>)
    ensures
        texts_of(final(parts)@) == texts_of(old(parts)@) + skills_part(*skills),
{
    match skills {
        None => {},
        Some(list) => {
            if list.len() > 0 {
                push_text(parts, SKILLS_AVAILABLE);
                push_text(parts, format_skills_xml(list.as_slice()).as_str());
                push_blank(parts);
            } else {
                push_text(parts, SKILLS_NONE);
            }
        },
    }
    assert(texts_of(parts@) =~= texts_of(old(parts)@) + skills_part(*skills));
}

/// Adds a file of the user with its heading.
fn push_file_part(parts: &mut Vec<Vec<char>>, heading: &str, content: &Option<String>)
    ensures
        texts_of(final(parts)@) == texts_of(old(parts)@) + file_part(heading@, *content),
{
    match content {
        None => {},
        Some(text) => {
            push_text(parts, heading);
            push_text(parts, text.as_str());
            push_blank(parts);
        },
    }
    assert(texts_of(parts@) =~= texts_of(old(parts)@) + file_part(heading@, *content));
}

/// Adds the part on memories.
fn push_memory_part(
    parts: &mut Vec<Vec<char>>,
    memories_dir: &Option<String>,
    hits: &Option<Vec<MemoryHit>>,
)
    ensures
        texts_of(final(parts)@) == texts_of(old(parts)@) + memory_part(*memories_dir, *hits),
{
    match memories_dir {
        None => {},
        Some(dir) => {
            push_text(parts, "## Memories");
            push_chars(
                parts,
                headed(
                    "You can save important information about conversations to your memory system at: ",
                    dir.as_str(),
                ),
            );
            push_text(parts, MEMORY_RULES);
            match hits {
                None => {},
                Some(list) => {
                    if list.len() > 0 {
                        push_text(parts, MEMORY_HITS_HEAD);
                        let ghost base = texts_of(parts@);
                        let mut i: usize = 0;
                        assert(texts_of(parts@) =~= base + hit_lines(list@, 0));
                        while i < list.len()
                            invariant
                                i <= list@.len(),
                                texts_of(parts@) == base + hit_lines(list@, i as nat),
                            decreases list@.len() - i,
                        {
                            let ghost before = texts_of(parts@);
                            if list[i].relevant {
                                let path = chars_of(list[i].path.as_str());
                                push_chars(parts, framed("**From ", path.as_slice(), ":**"));
                                push_text(parts, list[i].chunk.as_str());
                                push_blank(parts);
                            }
                            i += 1;
                            assert(texts_of(parts@) =~= base + hit_lines(list@, i as nat));
                        }
                    }
                },
            }
        },
    }
    assert(texts_of(parts@) =~= texts_of(old(parts)@) + memory_part(*memories_dir, *hits));
}

/// Writes the prompt that gives the assistant its context for a message:
/// who it is, the channel, what it can do, its skills, its workspace, the
/// files of the user, and the memories that fit the message.
///
/// The prompt is the parts of [`context_parts`], each on a line of its own.
pub fn build_context_prompt_for_user(ctx: &PromptContext) -> (r: String)
    ensures
        r@ == join_lines(context_parts(*ctx)),
{
    let mut parts: Vec<Vec<char>> = Vec::new();
    assert(texts_of(parts@) =~= Seq::<Seq<char>>::empty());
    let name = assistant_name(&ctx.identity);
    let mut opening: Vec<char> = framed(
        "You are ",
        name.as_slice(),
        ", a personal AI assistant. You are chatting with your user via a messaging app",
    );
    match &ctx.channel_display {
        Some(c) => {
            push_str(&mut opening, " (via ");
            push_str(&mut opening, c.as_str());
            push_str(&mut opening, ")");
        },
        None => {},
    }
    push_str(&mut opening, ".");
    assert(opening@ =~= opening_line(assistant_name_spec(ctx.identity), ctx.channel_display));
    push_chars(&mut parts, opening);
    push_blank(&mut parts);
    push_text(&mut parts, CAPABILITIES);
    push_channel_part(&mut parts, &ctx.channel_display);
    push_text(&mut parts, SKILLS_HEAD);
    push_skills_part(&mut parts, &ctx.skills);
    push_text(&mut parts, CREATING_SKILLS);
    push_chars(&mut parts, headed("Use the bundled Bun at: ", ctx.bun_path.as_str()));
    push_blank(&mut parts);
    push_text(&mut parts, "## Workspace");
    push_chars(&mut parts, headed("Your workspace directory is: ", ctx.workspace.as_str()));
    push_blank(&mut parts);
    push_text(&mut parts, "# Project Context");
    push_blank(&mut parts);
    push_file_part(&mut parts, "## IDENTITY.md", &ctx.identity);
    push_file_part(&mut parts, "## USER.md", &ctx.user_content);
    push_file_part(&mut parts, "## PERSONA.md", &ctx.persona);
    push_memory_part(&mut parts, &ctx.memories_dir, &ctx.memory_hits);
    assert(texts_of(parts@) =~= context_parts(*ctx));
    join_with_newlines(&parts)
}

} // verus!
