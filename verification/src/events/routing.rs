//! Which new messages the bot answers.
use vstd::prelude::*;

verus! {

/// The next step in handling a new message.
#[derive(Debug, PartialEq, Eq)]
pub enum MessageStep {
    /// The message is left alone.
    Ignore,
    /// Record whether the author is a PluralKit user, then report that it was done.
    RecordPluralKit,
    /// Ask whether the author is known as a PluralKit user.
    CheckPlurality,
    /// Ask PluralKit whether it proxied this message.
    CheckProxied,
    /// Answer the message (time estimates, links, logs).
    Handle,
}

/// A message the bot never answers: one from a bot that did not come
/// through a webhook (PluralKit posts through one), or one of its own.
pub open spec fn from_ignored_author(author_is_bot: bool, via_webhook: bool, author_id: u64, own_id: u64) -> bool {
    (author_is_bot && !via_webhook) || author_id == own_id
}

/// The step after what is known of a message: its author (see
/// [`from_ignored_author`]); whether a store is there (without one,
/// PluralKit users are not looked for); whether the author was recorded;
/// whether the author is a PluralKit user; and whether PluralKit proxied the
/// message. A message of a PluralKit user that PluralKit proxied is left alone.
pub open spec fn message_route(
    author_is_bot: bool,
    via_webhook: bool,
    author_id: u64,
    own_id: u64,
    has_storage: bool,
    recorded: bool,
    plural: Option<bool>,
    proxied: Option<bool>,
) -> MessageStep {
    if from_ignored_author(author_is_bot, via_webhook, author_id, own_id) {
        MessageStep::Ignore
    } else if !has_storage {
        MessageStep::Handle
    } else if !recorded {
        MessageStep::RecordPluralKit
    } else {
        match plural {
            None => MessageStep::CheckPlurality,
            Some(false) => MessageStep::Handle,
            Some(true) => match proxied {
                None => MessageStep::CheckProxied,
                Some(true) => MessageStep::Ignore,
                Some(false) => MessageStep::Handle,
            },
        }
    }
}

/// The next step in handling a new message (see [`message_route`]).
pub fn next_message_step(
    author_is_bot: bool,
    via_webhook: bool,
    author_id: u64,
    own_id: u64,
    has_storage: bool,
    recorded: bool,
    plural: Option<bool>,
    proxied: Option<bool>,
) -> (r: MessageStep)
    ensures
        r == message_route(author_is_bot, via_webhook, author_id, own_id, has_storage, recorded, plural, proxied),
{
    if (author_is_bot && !via_webhook) || author_id == own_id {
        MessageStep::Ignore
    } else if !has_storage {
        MessageStep::Handle
    } else if !recorded {
        MessageStep::RecordPluralKit
    } else {
        match plural {
            None => MessageStep::CheckPlurality,
            Some(false) => MessageStep::Handle,
            Some(true) => match proxied {
                None => MessageStep::CheckProxied,
                Some(true) => MessageStep::Ignore,
                Some(false) => MessageStep::Handle,
            },
        }
    }
}

} // verus!
