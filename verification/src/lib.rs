//! Core logic of a Discord bot that renders osu! replays with danser:
//! text handling for commands and embeds, the replay-file header encoder,
//! the download backoff schedule, and the decisions behind the bot's commands.

pub mod backoff;
pub mod commands;
pub mod config;
pub mod embed;
pub mod guild_setup;
pub mod help;
pub mod osr;
pub mod queue;
pub mod render;
pub mod server;
pub mod settings_edit;
pub mod settings_file;
pub mod settings_view;
pub mod skins;
pub mod text;
