//! Settings of the assistant and the places where it keeps its files.

use crate::text::{chars_of, clone_text, is_text, push_str, string_of};
use vstd::prelude::*;

verus! {

// ---------------------------------------------------------------------------
// Paths
// ---------------------------------------------------------------------------

/// `base` with the relative or absolute path `part` appended: an absolute
/// `part` stands for itself, and a separator is put between the two unless
/// `base` is empty or ends with one.
pub open spec fn join_spec(base: Seq<char>, part: Seq<char>) -> Seq<char> {
    if part.len() > 0 && part[0] == '/' {
        part
    } else if base.len() == 0 || base.last() == '/' {
        base + part
    } else {
        base + "/"@ + part
    }
}

/// Appends the path `part` to the directory `base`.
pub fn join_path(base: &str, part: &str) -> (r: String)
    ensures
        r@ == join_spec(base@, part@),
{
    let b = chars_of(base);
    let p = chars_of(part);
    if p.len() > 0 && p[0] == '/' {
        return string_of(p.as_slice());
    }
    let mut out: Vec<char> = Vec::new();
    push_str(&mut out, base);
    if b.len() > 0 && b[b.len() - 1] != '/' {
        push_str(&mut out, "/");
    }
    push_str(&mut out, part);
    string_of(out.as_slice())
}

/// Where the assistant keeps its files. Every entry is a path as text.
#[derive(Debug)]
pub struct Paths {
    pub base: String,
    pub config_file: String,
    pub pairing_file: String,
    pub memory_dir: String,
    pub skills_dir: String,
    pub internal_dir: String,
    pub deps_dir: String,
    pub bun_dir: String,
    pub java_dir: String,
    pub signal_cli_dir: String,
    pub claude_code_dir: String,
    pub claude_home: String,
    pub signal_data_dir: String,
    pub cursor_cli_dir: String,
    pub cursor_home: String,
}

// ---------------------------------------------------------------------------
// Settings
// ---------------------------------------------------------------------------

/// Which assistant answers.
#[derive(Debug, Clone, Copy, PartialEq, Eq)]
pub enum AiBackend {
    Claude,
    Cursor,
}

impl Default for AiBackend {
    fn default() -> (r: Self)
        ensures
            r == AiBackend::Claude,
    {
        AiBackend::Claude
    }
}

/// Settings of the Telegram channel.
#[derive(Debug)]
pub struct TelegramConfig {
    pub bot_token: String,
    pub auto_approve: bool,
    pub shared_identity: bool,
    pub onboarding_prompt: Option<String>,
}

impl TelegramConfig {
    /// Settings with the given token and everything else off.
    pub fn new(bot_token: String) -> (r: Self)
        ensures
            r.bot_token == bot_token,
            !r.auto_approve,
            !r.shared_identity,
            r.onboarding_prompt is None,
    {
        TelegramConfig {
            bot_token,
            auto_approve: false,
            shared_identity: false,
            onboarding_prompt: None,
        }
    }
}

/// Settings of the Signal channel.
#[derive(Debug)]
pub struct SignalConfig {
    pub phone_number: String,
    pub auto_approve: bool,
    pub shared_identity: bool,
    pub onboarding_prompt: Option<String>,
}

impl SignalConfig {
    /// Settings with the given number and everything else off.
    pub fn new(phone_number: String) -> (r: Self)
        ensures
            r.phone_number == phone_number,
            !r.auto_approve,
            !r.shared_identity,
            r.onboarding_prompt is None,
    {
        SignalConfig {
            phone_number,
            auto_approve: false,
            shared_identity: false,
            onboarding_prompt: None,
        }
    }
}

/// Settings of the Slack channel.
#[derive(Debug)]
pub struct SlackConfig {
    pub bot_token: String,
    pub app_token: String,
    pub auto_approve: bool,
    pub shared_identity: bool,
    pub onboarding_prompt: Option<String>,
}

impl SlackConfig {
    /// Settings with the given tokens and everything else off.
    pub fn new(bot_token: String, app_token: String) -> (r: Self)
        ensures
            r.bot_token == bot_token,
            r.app_token == app_token,
            !r.auto_approve,
            !r.shared_identity,
            r.onboarding_prompt is None,
    {
        SlackConfig {
            bot_token,
            app_token,
            auto_approve: false,
            shared_identity: false,
            onboarding_prompt: None,
        }
    }
}

/// The channels that are set up.
#[derive(Debug)]
pub struct ChannelsConfig {
    pub telegram: Option<TelegramConfig>,
    pub signal: Option<SignalConfig>,
    pub slack: Option<SlackConfig>,
}

impl Default for ChannelsConfig {
    fn default() -> (r: Self)
        ensures
            r.telegram is None,
            r.signal is None,
            r.slack is None,
    {
        ChannelsConfig { telegram: None, signal: None, slack: None }
    }
}

/// What pairing and the introduction need to know of a channel.
#[derive(Debug)]
pub struct ChannelSettings {
    pub auto_approve: bool,
    pub shared_identity: bool,
    pub onboarding_prompt: Option<String>,
}

impl ChannelSettings {
    /// The settings of a channel that is not set up.
    pub open spec fn none() -> ChannelSettings {
        ChannelSettings { auto_approve: false, shared_identity: false, onboarding_prompt: None }
    }

    /// The settings made of a channel's own values, with the general prompt
    /// where the channel has none of its own.
    pub open spec fn of(
        auto_approve: bool,
        shared_identity: bool,
        own_prompt: Option<String>,
        general_prompt: Option<String>,
    ) -> ChannelSettings {
        ChannelSettings {
            auto_approve,
            shared_identity,
            onboarding_prompt: if own_prompt is Some {
                own_prompt
            } else {
                general_prompt
            },
        }
    }
}

impl Default for ChannelSettings {
    fn default() -> (r: Self)
        ensures
            r == ChannelSettings::none(),
    {
        ChannelSettings { auto_approve: false, shared_identity: false, onboarding_prompt: None }
    }
}

/// Settings of the first backend.
#[derive(Debug)]
pub struct ClaudeConfig {
    /// Key or token for the Anthropic API.
    pub api_key: Option<String>,
    /// Whether the backend is reached through Vertex AI.
    pub use_vertex: bool,
    pub vertex_project_id: Option<String>,
    pub vertex_region: Option<String>,
    pub vertex_credentials_path: Option<String>,
}

impl Default for ClaudeConfig {
    fn default() -> (r: Self)
        ensures
            r.api_key is None,
            !r.use_vertex,
            r.vertex_project_id is None,
            r.vertex_region is None,
            r.vertex_credentials_path is None,
    {
        ClaudeConfig {
            api_key: None,
            use_vertex: false,
            vertex_project_id: None,
            vertex_region: None,
            vertex_credentials_path: None,
        }
    }
}

/// Settings of the second backend, the Cursor command line.
#[derive(Debug)]
pub struct CursorConfig {
    pub api_key: Option<String>,
    pub model: Option<String>,
}

impl Default for CursorConfig {
    fn default() -> (r: Self)
        ensures
            r.api_key is None,
            r.model is None,
    {
        CursorConfig { api_key: None, model: None }
    }
}

/// All settings.
#[derive(Debug)]
pub struct Config {
    pub channels: ChannelsConfig,
    pub claude: ClaudeConfig,
    pub cursor: CursorConfig,
    pub backend: AiBackend,
    /// The introduction prompt for channels that have none of their own.
    pub onboarding_prompt: Option<String>,
}

impl Default for Config {
    fn default() -> (r: Self)
        ensures
            r.channels.telegram is None,
            r.channels.signal is None,
            r.channels.slack is None,
            r.claude.api_key is None,
            !r.claude.use_vertex,
            r.cursor.api_key is None,
            r.backend == AiBackend::Claude,
            r.onboarding_prompt is None,
    {
        Config {
            channels: ChannelsConfig::default(),
            claude: ClaudeConfig::default(),
            cursor: CursorConfig::default(),
            backend: AiBackend::default(),
            onboarding_prompt: None,
        }
    }
}

/// One of two optional texts: the first where there is one.
fn first_of(own: &Option<String>, general: &Option<String>) -> (r: Option<String>)
    ensures
        r == if own is Some {
            *own
        } else {
            *general
        },
{
    match own {
        Some(text) => Some(text.clone()),
        None => clone_text(general),
    }
}

impl Config {
    /// The settings of `channel` for pairing and the introduction.
    pub open spec fn settings_of(self, channel: Seq<char>) -> ChannelSettings {
        if channel == "telegram"@ {
            match self.channels.telegram {
                Some(c) => ChannelSettings::of(
                    c.auto_approve,
                    c.shared_identity,
                    c.onboarding_prompt,
                    self.onboarding_prompt,
                ),
                None => ChannelSettings::none(),
            }
        } else if channel == "signal"@ {
            match self.channels.signal {
                Some(c) => ChannelSettings::of(
                    c.auto_approve,
                    c.shared_identity,
                    c.onboarding_prompt,
                    self.onboarding_prompt,
                ),
                None => ChannelSettings::none(),
            }
        } else if channel == "slack"@ {
            match self.channels.slack {
                Some(c) => ChannelSettings::of(
                    c.auto_approve,
                    c.shared_identity,
                    c.onboarding_prompt,
                    self.onboarding_prompt,
                ),
                None => ChannelSettings::none(),
            }
        } else {
            ChannelSettings::none()
        }
    }

    /// The settings of `channel` for pairing and the introduction: its own
    /// where it is set up, with the general introduction prompt where it has
    /// none; all off for a channel that is not set up or not known.
    pub fn channel_settings(&self, channel: &str) -> (r: ChannelSettings)
        ensures
            r == self.settings_of(channel@),
    {
        let name = chars_of(channel);
        if is_text(name.as_slice(), "telegram") {
            match &self.channels.telegram {
                Some(c) => ChannelSettings {
                    auto_approve: c.auto_approve,
                    shared_identity: c.shared_identity,
                    onboarding_prompt: first_of(&c.onboarding_prompt, &self.onboarding_prompt),
                },
                None => ChannelSettings::default(),
            }
        } else if is_text(name.as_slice(), "signal") {
            match &self.channels.signal {
                Some(c) => ChannelSettings {
                    auto_approve: c.auto_approve,
                    shared_identity: c.shared_identity,
                    onboarding_prompt: first_of(&c.onboarding_prompt, &self.onboarding_prompt),
                },
                None => ChannelSettings::default(),
            }
        } else if is_text(name.as_slice(), "slack") {
            match &self.channels.slack {
                Some(c) => ChannelSettings {
                    auto_approve: c.auto_approve,
                    shared_identity: c.shared_identity,
                    onboarding_prompt: first_of(&c.onboarding_prompt, &self.onboarding_prompt),
                },
                None => ChannelSettings::default(),
            }
        } else {
            ChannelSettings::default()
        }
    }

    /// The names of the channels that are set up.
    pub open spec fn channel_names(self) -> Seq<Seq<char>> {
        (if self.channels.telegram is Some {
            seq!["telegram"@]
        } else {
            Seq::<Seq<char>>::empty()
        }) + (if self.channels.signal is Some {
            seq!["signal"@]
        } else {
            Seq::<Seq<char>>::empty()
        }) + (if self.channels.slack is Some {
            seq!["slack"@]
        } else {
            Seq::<Seq<char>>::empty()
        })
    }

    /// The names of the channels that are set up, in the order telegram,
    /// signal, slack.
    pub fn configured_channels(&self) -> (r: Vec<&'static str>)
        ensures
            r@.map_values(|name: &'static str| name@) == self.channel_names(),
    {
        let mut channels: Vec<&'static str> = Vec::new();
        if self.channels.telegram.is_some() {
            channels.push("telegram");
        }
        if self.channels.signal.is_some() {
            channels.push("signal");
        }
        if self.channels.slack.is_some() {
            channels.push("slack");
        }
        assert(channels@.map_values(|name: &'static str| name@) =~= self.channel_names());
        channels
    }

    /// Whether the first backend can be reached: through Vertex AI with a
    /// project that is named, or else with a key.
    pub open spec fn claude_ready(self) -> bool {
        if self.claude.use_vertex {
            self.claude.vertex_project_id matches Some(project) && project@.len() > 0
        } else {
            self.claude.api_key is Some
        }
    }

    /// Whether the first backend is set up.
    pub fn is_claude_configured(&self) -> (r: bool)
        ensures
            r == self.claude_ready(),
    {
        if self.claude.use_vertex {
            match &self.claude.vertex_project_id {
                Some(project) => !project.as_str().is_empty(),
                None => false,
            }
        } else {
            self.claude.api_key.is_some()
        }
    }

    /// Whether the second backend is set up.
    pub fn is_cursor_configured(&self) -> (r: bool)
        ensures
            r == self.cursor.api_key is Some,
    {
        self.cursor.api_key.is_some()
    }

    /// Whether the backend that was chosen is set up.
    pub fn is_backend_configured(&self) -> (r: bool)
        ensures
            r == match self.backend {
                AiBackend::Claude => self.claude_ready(),
                AiBackend::Cursor => self.cursor.api_key is Some,
            },
    {
        match self.backend {
            AiBackend::Claude => self.is_claude_configured(),
            AiBackend::Cursor => self.is_cursor_configured(),
        }
    }
}

} // verus!
