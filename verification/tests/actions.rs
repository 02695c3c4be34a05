use cica::channels::{
    build_text_with_images, determine_action, get_channel_info, is_image_content_type,
    process_command, CommandResult, MessageAction,
};
use cica::cron::store::CronStore;
use cica::pairing::PairingStore;
use cica::skills::Skill;

fn approved_store() -> PairingStore {
    let mut store = PairingStore::default();
    store.auto_approve("telegram", "1", None, None);
    store
}

fn decide(
    store: &mut PairingStore,
    jobs: &mut CronStore,
    user: &str,
    text: &str,
    onboarded: bool,
) -> Result<MessageAction, String> {
    determine_action("telegram", user, text, store, jobs, &[], None, None, onboarded)
}

#[test]
fn supported_channels() {
    let telegram = get_channel_info("telegram").unwrap();
    assert_eq!(telegram.name, "telegram");
    assert_eq!(telegram.display_name, "Telegram");
    let signal = get_channel_info("signal").unwrap();
    assert_eq!(signal.name, "signal");
    assert_eq!(signal.display_name, "Signal");
    assert!(get_channel_info("slack").is_none());
    assert!(get_channel_info("Telegram").is_none());
    assert!(get_channel_info("").is_none());
}

#[test]
fn images_are_added_to_the_text() {
    let none: Vec<Option<String>> = vec![];
    assert_eq!(build_text_with_images("hello", &none), "hello");
    assert_eq!(
        build_text_with_images("look", &[Some("/tmp/a.png".to_string())]),
        "look\n\n@/tmp/a.png"
    );
    assert_eq!(
        build_text_with_images(
            "look",
            &[Some("/tmp/a.png".to_string()), Some("/tmp/b.png".to_string())]
        ),
        "look\n\n@/tmp/a.png @/tmp/b.png"
    );
    assert_eq!(
        build_text_with_images(
            "",
            &[Some("/tmp/a.png".to_string()), Some("/tmp/b.png".to_string())]
        ),
        "@/tmp/a.png @/tmp/b.png"
    );
    // A path that is no text is left out, and the next is no longer the first.
    assert_eq!(
        build_text_with_images("look", &[None, Some("/tmp/b.png".to_string())]),
        "look @/tmp/b.png"
    );
    assert_eq!(build_text_with_images("", &[None]), "");
}

#[test]
fn a_stranger_gets_a_pairing_code() {
    let mut store = PairingStore::default();
    let mut jobs = CronStore::new();
    let first = match decide(&mut store, &mut jobs, "9", "hello", false) {
        Ok(MessageAction::NeedsPairing { code }) => code,
        other => panic!("{:?}", other),
    };
    assert_eq!(first.len(), 8);
    assert_eq!(store.pending.len(), 1);
    // Even a command of a stranger is answered with the same code.
    match decide(&mut store, &mut jobs, "9", "/cron list", true) {
        Ok(MessageAction::NeedsPairing { code }) => assert_eq!(code, first),
        other => panic!("{:?}", other),
    }
    assert_eq!(store.pending.len(), 1);
}

#[test]
fn plain_messages_of_an_approved_user() {
    let mut store = approved_store();
    let mut jobs = CronStore::new();
    assert!(matches!(
        decide(&mut store, &mut jobs, "1", "  what's up?  ", true),
        Ok(MessageAction::QueryClaude { text }) if text == "what's up?"
    ));
    assert!(matches!(
        decide(&mut store, &mut jobs, "1", "/start", true),
        Ok(MessageAction::Ignore)
    ));
    assert!(matches!(
        decide(&mut store, &mut jobs, "1", "   ", true),
        Ok(MessageAction::Ignore)
    ));
    assert!(matches!(
        decide(&mut store, &mut jobs, "1", "/start", false),
        Ok(MessageAction::Onboarding { message }) if message == "hi"
    ));
    assert!(matches!(
        decide(&mut store, &mut jobs, "1", " I am Ada ", false),
        Ok(MessageAction::Onboarding { message }) if message == "I am Ada"
    ));
    assert!(matches!(
        decide(&mut store, &mut jobs, "1", "", false),
        Ok(MessageAction::Onboarding { message }) if message.is_empty()
    ));
}

#[test]
fn commands_of_an_approved_user() {
    let mut store = approved_store();
    let mut jobs = CronStore::new();
    assert!(matches!(
        decide(&mut store, &mut jobs, "1", "/commands", false),
        Ok(MessageAction::SendResponse(text)) if text.starts_with("Available commands:\n")
    ));
    assert!(matches!(
        decide(&mut store, &mut jobs, "1", "/cron add every 1h Stretch", true),
        Ok(MessageAction::SendResponse(text)) if text.starts_with("Created job [")
    ));
    assert_eq!(jobs.len(), 1);
    let id = jobs.list_for_user("telegram", "1")[0].id.clone();
    assert!(matches!(
        decide(&mut store, &mut jobs, "1", &format!("/cron run {}", &id[..6]), true),
        Ok(MessageAction::ExecuteCronJob { job_id }) if job_id == id
    ));
    assert_eq!(
        decide(&mut store, &mut jobs, "1", "/cron run nothing", true).unwrap_err(),
        "Job not found: nothing"
    );
}

#[test]
fn the_command_list() {
    let mut store = approved_store();
    let mut jobs = CronStore::new();
    match process_command(&mut store, &mut jobs, &[], "telegram", "1", " /commands ", true) {
        Ok(CommandResult::Response(text)) => assert_eq!(
            text,
            "Available commands:\n\n/commands - Show available commands\n/new - Start a new conversation\n/skills - List available skills\n/cron - Manage scheduled jobs"
        ),
        other => panic!("{:?}", other),
    }
    assert!(matches!(
        process_command(&mut store, &mut jobs, &[], "telegram", "1", "hello", true),
        Ok(CommandResult::NotACommand)
    ));
    assert!(matches!(
        process_command(&mut store, &mut jobs, &[], "telegram", "1", "/commands now", true),
        Ok(CommandResult::NotACommand)
    ));
}

#[test]
fn new_forgets_the_session_after_the_introduction() {
    let mut store = approved_store();
    let mut jobs = CronStore::new();
    store.get_or_create_session_with("telegram", "1", "s-1".to_string());
    match process_command(&mut store, &mut jobs, &[], "telegram", "1", "/new", false) {
        Ok(CommandResult::Response(text)) => assert_eq!(
            text,
            "Please complete the onboarding first. Say \"hello\" to get started!"
        ),
        other => panic!("{:?}", other),
    }
    assert_eq!(
        store.get_or_create_session_with("telegram", "1", "s-2".to_string()),
        "s-1"
    );
    match process_command(&mut store, &mut jobs, &[], "telegram", "1", "/new", true) {
        Ok(CommandResult::Response(text)) => assert_eq!(
            text,
            "Starting fresh! Our previous conversation has been cleared."
        ),
        other => panic!("{:?}", other),
    }
    assert_eq!(
        store.get_or_create_session_with("telegram", "1", "s-2".to_string()),
        "s-2"
    );
}

#[test]
fn skills_are_listed() {
    let mut store = approved_store();
    let mut jobs = CronStore::new();
    match process_command(&mut store, &mut jobs, &[], "telegram", "1", "/skills", true) {
        Ok(CommandResult::Response(text)) => assert_eq!(text, "No skills installed."),
        other => panic!("{:?}", other),
    }
    let skills = vec![
        Skill {
            name: "cal".to_string(),
            description: "Calendar".to_string(),
            location: "x".to_string(),
        },
        Skill {
            name: "mail".to_string(),
            description: "Mail".to_string(),
            location: "y".to_string(),
        },
    ];
    match process_command(&mut store, &mut jobs, &skills, "telegram", "1", "/skills", true) {
        Ok(CommandResult::Response(text)) => {
            assert_eq!(text, "Available skills:\n\n• cal - Calendar\n• mail - Mail")
        }
        other => panic!("{:?}", other),
    }
}

#[test]
fn everything_that_starts_with_cron_is_a_job_command() {
    let mut store = approved_store();
    let mut jobs = CronStore::new();
    for text in ["/cron", "/cron   ", "/cronx", "/cron help"] {
        match process_command(&mut store, &mut jobs, &[], "telegram", "1", text, true) {
            Ok(CommandResult::Response(answer)) => {
                assert!(answer.starts_with("Cron job commands:"), "{}", text)
            }
            other => panic!("{:?}", other),
        }
    }
    match process_command(&mut store, &mut jobs, &[], "telegram", "1", "/cron   list", true) {
        Ok(CommandResult::Response(answer)) => assert!(answer.starts_with("No scheduled jobs.")),
        other => panic!("{:?}", other),
    }
}

#[test]
fn four_kinds_of_image_are_taken() {
    for kind in ["image/jpeg", "image/png", "image/gif", "image/webp"] {
        assert!(is_image_content_type(kind), "{}", kind);
    }
    for kind in ["image/svg+xml", "image/JPEG", "image/png ", "text/plain", ""] {
        assert!(!is_image_content_type(kind), "{}", kind);
    }
}
