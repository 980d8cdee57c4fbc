//! The bot's settings.
pub mod discord;
pub mod github;
