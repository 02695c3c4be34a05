//! Scheduling and message-coalescing engine of a chat-based personal assistant.

pub mod backends;
pub mod channels;
pub mod config;
pub mod cron;
pub mod onboarding;
pub mod pairing;
pub mod setup;
pub mod skills;
pub mod text;
pub mod textmap;
pub mod trusted;
