//! What the bot does on Discord events, as decisions on plain values.
pub mod eta;
pub mod dms_vcs;
pub mod give_role;
pub mod block_reaction;
pub mod delete_on_reaction;
pub mod message_logger;
pub mod regular_role;
pub mod routing;
pub mod support_onboard;
