//! The replies of the general commands.
use vstd::prelude::*;
use vstd::string::StringExecFns;

use crate::consts::Colors;
use crate::embed::{empty_embed, AuthorModel, EmbedModel, EmbedSpec};
use crate::text::{append_decimal, decimal};

verus! {

/// The first line of `/ping`'s reply.
pub const PING_PREFIX: &'static str = "<:catstareback:1078622789885497414> Pong!";

/// The reply to `/ping` once timed: the round trip in milliseconds, and the
/// gateway latency in milliseconds (`None` when it is not known yet).
pub fn ping_reply(rtt_millis: u128, gateway_millis: Option<u128>) -> (r: String)
    ensures
        r@ == PING_PREFIX@ + "\n\nRTT: "@ + decimal(rtt_millis as nat) + "ms\nGateway: "@ + match gateway_millis {
            Some(g) => decimal(g as nat) + "ms"@,
            None => "Undetermined"@,
        },
{
    let mut r = String::from_str(PING_PREFIX);
    r.append("\n\nRTT: ");
    append_decimal(&mut r, rtt_millis);
    r.append("ms\nGateway: ");
    match gateway_millis {
        Some(g) => {
            append_decimal(&mut r, g);
            r.append("ms");
        },
        None => r.append("Undetermined"),
    }
    r
}

/// The reply to `/stars`.
pub fn stars_embed(count: u32) -> (r: EmbedSpec)
    ensures
        r@ == (EmbedModel {
            title: Some("⭐ "@ + decimal(count as nat) + " total stars!"@),
            color: Some(Colors::Yellow.rgb()),
            ..empty_embed()
        }),
{
    let mut title = String::from_str("⭐ ");
    append_decimal(&mut title, count as u128);
    title.append(" total stars!");
    EmbedSpec::new().title(title).color(Colors::Yellow.value())
}

/// The reply to `/members`.
pub fn members_embed(member_count: u64, online_count: u64) -> (r: EmbedSpec)
    ensures
        r@ == (EmbedModel {
            title: Some(decimal(member_count as nat) + " total members!"@),
            description: Some(decimal(online_count as nat) + " online members"@),
            color: Some(Colors::Blue.rgb()),
            ..empty_embed()
        }),
{
    let mut title = String::new();
    append_decimal(&mut title, member_count as u128);
    title.append(" total members!");
    let mut description = String::new();
    append_decimal(&mut description, online_count as u128);
    description.append(" online members");
    EmbedSpec::new().title(title).description(description).color(Colors::Blue.value())
}

/// The log entry of `/say`: what was said, and by whom.
pub fn say_log_embed(content: String, author_tag: String, author_icon: Option<String>) -> (r: EmbedSpec)
    ensures
        r@ == (EmbedModel {
            title: Some("Say command used!"@),
            description: Some(content@),
            author: Some(AuthorModel { name: author_tag@, icon_url: crate::embed::opt_view(author_icon) }),
            ..empty_embed()
        }),
{
    EmbedSpec::new().title(String::from_str("Say command used!")).description(content).author(
        author_tag,
        author_icon,
    )
}

/// What deleting a command's reply through the context menu does.
#[derive(Debug)]
pub struct DeleteOutcome {
    pub delete: bool,
    pub reply: String,
}

/// Deleting a command's reply: only replies to commands, and only by the
/// user who ran the command.
pub fn delete_interaction(command_user: Option<u64>, author: u64) -> (r: DeleteOutcome)
    ensures
        r.delete == (command_user == Some(author)),
        r.reply@ == match command_user {
            None => "❌ This message does not contain a command"@,
            Some(u) => if u != author {
                "❌ You cannot delete commands run by other users"@
            } else {
                "🗑️ Deleted command!"@
            },
        },
{
    match command_user {
        None => DeleteOutcome {
            delete: false,
            reply: String::from_str("❌ This message does not contain a command"),
        },
        Some(u) => if u != author {
            DeleteOutcome {
                delete: false,
                reply: String::from_str("❌ You cannot delete commands run by other users"),
            }
        } else {
            DeleteOutcome { delete: true, reply: String::from_str("🗑️ Deleted command!") }
        },
    }
}

} // verus!
