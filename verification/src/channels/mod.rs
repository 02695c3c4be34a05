//! What to do with an incoming message.

pub mod actions;
pub mod commands;
pub mod debounce;
pub mod session;

pub use crate::channels::actions::{
    build_text_with_images, determine_action, get_channel_info, is_image_content_type,
    process_command, ChannelInfo, MessageAction,
};
pub use crate::channels::commands::{find_job_id, process_cron_command, CommandResult};
pub use crate::channels::debounce::{Dispatch, TaskModel, UserTaskManager, DEBOUNCE_MS};
