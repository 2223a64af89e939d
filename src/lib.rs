//! Operating configuration of a broadcast-control bot: the settings record,
//! its normalization, the default chat-command catalogue, and the pieces of
//! the first-run setup that decide what the new record holds.

pub mod text;
pub mod commands;
pub mod settings;
pub mod setup;
