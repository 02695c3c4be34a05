use cica::config::{
    join_path, AiBackend, ChannelSettings, ChannelsConfig, ClaudeConfig, Config, CursorConfig,
    SignalConfig, SlackConfig, TelegramConfig,
};

#[test]
fn paths_are_joined_with_one_separator() {
    assert_eq!(join_path("/home/u/.config/cica", "skills"), "/home/u/.config/cica/skills");
    assert_eq!(join_path("/home/u/", "skills"), "/home/u/skills");
    assert_eq!(join_path("", "skills"), "skills");
    assert_eq!(join_path("/home/u", "/etc"), "/etc");
    assert_eq!(join_path("/home/u", ""), "/home/u/");
}

#[test]
fn new_channel_settings_have_everything_off() {
    let telegram = TelegramConfig::new("token".to_string());
    assert_eq!(telegram.bot_token, "token");
    assert!(!telegram.auto_approve);
    assert!(!telegram.shared_identity);
    assert_eq!(telegram.onboarding_prompt, None);
    let signal = SignalConfig::new("+100".to_string());
    assert_eq!(signal.phone_number, "+100");
    assert!(!signal.auto_approve);
    let slack = SlackConfig::new("bot".to_string(), "app".to_string());
    assert_eq!(slack.bot_token, "bot");
    assert_eq!(slack.app_token, "app");
    assert!(!slack.shared_identity);
}

#[test]
fn defaults() {
    let config = Config::default();
    assert_eq!(config.backend, AiBackend::Claude);
    assert_eq!(AiBackend::default(), AiBackend::Claude);
    assert!(config.configured_channels().is_empty());
    assert!(!config.is_claude_configured());
    assert!(!config.is_cursor_configured());
    assert!(!config.is_backend_configured());
    let channels = ChannelsConfig::default();
    assert!(channels.telegram.is_none() && channels.signal.is_none() && channels.slack.is_none());
    assert!(ClaudeConfig::default().api_key.is_none());
    assert!(CursorConfig::default().model.is_none());
    let settings = ChannelSettings::default();
    assert!(!settings.auto_approve && !settings.shared_identity);
    assert_eq!(settings.onboarding_prompt, None);
}

#[test]
fn channel_settings_fall_back_to_the_general_prompt() {
    let mut config = Config::default();
    config.onboarding_prompt = Some("general".to_string());
    let mut telegram = TelegramConfig::new("t".to_string());
    telegram.auto_approve = true;
    telegram.onboarding_prompt = Some("own".to_string());
    config.channels.telegram = Some(telegram);
    let mut signal = SignalConfig::new("+1".to_string());
    signal.shared_identity = true;
    config.channels.signal = Some(signal);

    let t = config.channel_settings("telegram");
    assert!(t.auto_approve);
    assert!(!t.shared_identity);
    assert_eq!(t.onboarding_prompt, Some("own".to_string()));
    let s = config.channel_settings("signal");
    assert!(!s.auto_approve);
    assert!(s.shared_identity);
    assert_eq!(s.onboarding_prompt, Some("general".to_string()));
    // A channel that is not set up gets nothing, not even the general prompt.
    let slack = config.channel_settings("slack");
    assert!(!slack.auto_approve);
    assert_eq!(slack.onboarding_prompt, None);
    assert_eq!(config.channel_settings("matrix").onboarding_prompt, None);

    config.channels.slack = Some(SlackConfig::new("b".to_string(), "a".to_string()));
    assert_eq!(
        config.channel_settings("slack").onboarding_prompt,
        Some("general".to_string())
    );
    assert_eq!(config.configured_channels(), vec!["telegram", "signal", "slack"]);
    config.channels.telegram = None;
    assert_eq!(config.configured_channels(), vec!["signal", "slack"]);
}

#[test]
fn backends_are_set_up_by_their_keys() {
    let mut config = Config::default();
    config.claude.api_key = Some("k".to_string());
    assert!(config.is_claude_configured());
    assert!(config.is_backend_configured());
    config.claude.use_vertex = true;
    assert!(!config.is_claude_configured());
    config.claude.vertex_project_id = Some(String::new());
    assert!(!config.is_claude_configured());
    config.claude.vertex_project_id = Some("project".to_string());
    assert!(config.is_claude_configured());

    config.backend = AiBackend::Cursor;
    assert!(!config.is_backend_configured());
    config.cursor.api_key = Some("c".to_string());
    assert!(config.is_cursor_configured());
    assert!(config.is_backend_configured());
}
