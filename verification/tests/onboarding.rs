use cica::onboarding::{
    assistant_name, build_context_prompt_for_user, current_phase_for_user,
    identity_path_for_user, is_complete_for_user, system_prompt_for_user, user_dir,
    user_path_for_user, MemoryHit, Phase, PromptContext,
};
use cica::skills::Skill;

fn context() -> PromptContext {
    PromptContext {
        channel_display: None,
        identity: None,
        user_content: None,
        persona: None,
        skills: Some(vec![]),
        bun_path: "/base/internal/deps/bun/bun".to_string(),
        workspace: "/base".to_string(),
        memories_dir: None,
        memory_hits: None,
    }
}

#[test]
fn user_files() {
    assert_eq!(user_dir("/base", "telegram", "42"), "/base/users/telegram_42");
    assert_eq!(
        identity_path_for_user("/base", "telegram", "42"),
        "/base/users/telegram_42/IDENTITY.md"
    );
    assert_eq!(
        user_path_for_user("/base/", "signal", "+1"),
        "/base/users/signal_+1/USER.md"
    );
}

#[test]
fn phases_follow_the_files() {
    assert_eq!(current_phase_for_user(false, false), Phase::Identity);
    assert_eq!(current_phase_for_user(false, true), Phase::Identity);
    assert_eq!(current_phase_for_user(true, false), Phase::User);
    assert_eq!(current_phase_for_user(true, true), Phase::Complete);
    assert!(!is_complete_for_user(false, false));
    assert!(!is_complete_for_user(false, true));
    assert!(!is_complete_for_user(true, false));
    assert!(is_complete_for_user(true, true));
}

#[test]
fn introduction_prompts() {
    let identity = system_prompt_for_user(Phase::Identity, "/p/IDENTITY.md", "", "/p/USER.md");
    assert!(identity.starts_with(
        "You are a new AI assistant being set up by a user. You need to learn your identity before you can help them.\n\nOn the FIRST message"
    ));
    assert!(identity.contains("write them to: /p/IDENTITY.md\n\nUse this exact format:\n```\n# IDENTITY.md - Agent Identity\n"));
    assert!(identity.ends_with("IMPORTANT: Do NOT write the file until you have all three answers."));

    let user = system_prompt_for_user(Phase::User, "/p/IDENTITY.md", "- Name: Bo", "/p/USER.md");
    assert!(user.starts_with("You are an AI assistant with this identity:\n\n- Name: Bo\n\nYou just finished"));
    assert!(user.contains("When they respond, write their info to: /p/USER.md\n\nUse this format:"));
    assert!(user.ends_with("- After saving, just move on to helping them"));

    assert_eq!(system_prompt_for_user(Phase::Complete, "a", "b", "c"), "");
}

#[test]
fn the_name_comes_from_the_identity() {
    let name = |identity: Option<&str>| -> String {
        assistant_name(&identity.map(|s| s.to_string())).into_iter().collect()
    };
    assert_eq!(name(None), "Cica");
    assert_eq!(name(Some("# IDENTITY.md\n\n- Vibe: calm\n")), "Cica");
    assert_eq!(name(Some("# IDENTITY.md\n\n- Name: Bo \n- Vibe: calm\n")), "Bo");
    assert_eq!(name(Some("- Name: First\r\n- Name: Second\r\n")), "First");
    assert_eq!(name(Some("- Name:- Name:  Twice")), "Twice");
    assert_eq!(name(Some("  - Name: indented")), "Cica");
    assert_eq!(name(Some("- Name:")), "");
}

#[test]
fn smallest_context_prompt() {
    let text = build_context_prompt_for_user(&context());
    let expected = [
        "You are Cica, a personal AI assistant. You are chatting with your user via a messaging app.",
        "",
        "## Capabilities",
        "You can:",
        "- Have conversations and answer questions",
        "- Help with writing, brainstorming, and thinking through problems",
        "- Read and write files in your workspace",
        "- Run shell commands when needed",
        "- Search the web for current information",
        "",
        "## Skills",
        "Skills extend your capabilities. They live in the skills/ folder of your workspace.",
        "",
        "No skills are currently installed.",
        "",
        "### Creating Skills",
        "When the user asks about something you can't do directly (like accessing email, calendar, APIs, etc.), offer to create a skill for it.",
        "",
        "Each skill is a folder in skills/ containing:",
        "1. **SKILL.md** (required) - Instructions with YAML frontmatter:",
        "   ```",
        "   ---",
        "   name: my-skill",
        "   description: What this skill does",
        "   ---",
        "   # My Skill",
        "   Instructions for using this skill...",
        "   ```",
        "2. **index.ts** - The implementation (TypeScript/Bun preferred)",
        "3. **config.json** (optional) - Configuration/secrets",
        "",
        "Use the bundled Bun at: /base/internal/deps/bun/bun",
        "",
        "## Workspace",
        "Your workspace directory is: /base",
        "",
        "# Project Context",
        "",
    ]
    .join("\n");
    assert_eq!(text, expected);
}

#[test]
fn full_context_prompt() {
    let mut ctx = context();
    ctx.channel_display = Some("Telegram".to_string());
    ctx.identity = Some("# IDENTITY.md\n- Name: Bo\n".to_string());
    ctx.user_content = Some("- Name: Ada".to_string());
    ctx.persona = Some("Be brief.".to_string());
    ctx.skills = Some(vec![Skill {
        name: "mail".to_string(),
        description: "Mail".to_string(),
        location: "/base/skills/mail/SKILL.md".to_string(),
    }]);
    ctx.memories_dir = Some("/base/users/telegram_1/memories".to_string());
    ctx.memory_hits = Some(vec![
        MemoryHit { path: "a.md".to_string(), chunk: "likes tea".to_string(), relevant: true },
        MemoryHit { path: "b.md".to_string(), chunk: "far off".to_string(), relevant: false },
    ]);
    let text = build_context_prompt_for_user(&ctx);
    assert!(text.starts_with(
        "You are Bo, a personal AI assistant. You are chatting with your user via a messaging app (via Telegram).\n\n## Capabilities\n"
    ));
    assert!(text.contains(
        "\n\n## Messaging Channel\nYou are currently communicating via Telegram.\nIMPORTANT: Never send streaming/partial replies to external messaging surfaces.\n\n### Text Formatting\nTelegram supports standard markdown:\n- **bold** or __bold__\n"
    ));
    assert!(text.contains("- [links](url)\n\n## Skills\n"));
    assert!(text.contains(
        "\n\n### Available Skills\nTo use a skill, read its SKILL.md file at the location shown, then follow its instructions.\n\n<available_skills>\n  <skill>\n    <name>mail</name>\n"
    ));
    assert!(text.contains("</available_skills>\n\n### Creating Skills\n"));
    assert!(text.contains(
        "\n# Project Context\n\n## IDENTITY.md\n# IDENTITY.md\n- Name: Bo\n\n\n## USER.md\n- Name: Ada\n\n## PERSONA.md\nBe brief.\n\n## Memories\nYou can save important information about conversations to your memory system at: /base/users/telegram_1/memories\n\nWhen you learn something important"
    ));
    assert!(text.ends_with(
        "DO ask before saving memories. DON'T save trivial information.\n\n### Relevant Memories\nThe following memories may be relevant to this conversation:\n\n**From a.md:**\nlikes tea\n"
    ));
    assert!(!text.contains("far off"));
}

#[test]
fn formatting_rules_follow_the_channel() {
    let mut ctx = context();
    ctx.channel_display = Some("SIGNAL".to_string());
    let text = build_context_prompt_for_user(&ctx);
    assert!(text.contains(
        "### Text Formatting\nDo NOT use any text formatting (no markdown, no asterisks, no underscores).\nSignal requires special APIs for formatting that aren't available here.\nJust use plain text.\n\n## Skills"
    ));
    ctx.channel_display = Some("Slack".to_string());
    let text = build_context_prompt_for_user(&ctx);
    assert!(text.contains("### Text Formatting\nUse plain text formatting.\n\n## Skills"));
}

#[test]
fn skills_that_could_not_be_listed_are_left_out() {
    let mut ctx = context();
    ctx.skills = None;
    let text = build_context_prompt_for_user(&ctx);
    assert!(text.contains(
        "They live in the skills/ folder of your workspace.\n\n### Creating Skills\n"
    ));
    ctx.memories_dir = Some("/m".to_string());
    ctx.memory_hits = Some(vec![]);
    let text = build_context_prompt_for_user(&ctx);
    assert!(text.ends_with("DO ask before saving memories. DON'T save trivial information.\n"));
    ctx.memory_hits = Some(vec![MemoryHit {
        path: "b.md".to_string(),
        chunk: "far off".to_string(),
        relevant: false,
    }]);
    let text = build_context_prompt_for_user(&ctx);
    assert!(text.ends_with(
        "### Relevant Memories\nThe following memories may be relevant to this conversation:\n"
    ));
}
