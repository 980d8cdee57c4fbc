//! The "regular" role, earned by chatting: each day's first messages raise
//! a member's chattiness, and enough chattiness earns the role.
use vstd::prelude::*;

use crate::moderation::support_ban::has_role;

verus! {

/// The chattiness that earns the role.
pub const REQUIRED_CHATTINESS: i64 = 200;

/// The number of messages a day that count.
pub const MAX_PER_DAY: i64 = 25;

/// The regular role.
pub const REGULAR_ROLE: u64 = 1334298718362407063;

/// The roles a member gets if the role is earned: their roles and the
/// regular role after them; `None` when they have it already or have not
/// chatted enough.
pub open spec fn earned_roles(roles: Seq<u64>, chattiness: i64) -> Option<Seq<u64>> {
    if roles.contains(REGULAR_ROLE) || chattiness < REQUIRED_CHATTINESS {
        None
    } else {
        Some(roles.push(REGULAR_ROLE))
    }
}

/// The new roles of a member with `roles` and `chattiness`, if the regular
/// role is to be granted.
pub fn grant_regular_role(roles: &Vec<u64>, chattiness: i64) -> (r: Option<Vec<u64>>)
    ensures
        match r {
            Some(v) => earned_roles(roles@, chattiness) == Some(v@),
            None => earned_roles(roles@, chattiness) is None,
        },
{
    if has_role(roles, REGULAR_ROLE) || chattiness < REQUIRED_CHATTINESS {
        return None;
    }
    let mut new_roles = roles.clone();
    new_roles.push(REGULAR_ROLE);
    Some(new_roles)
}

/// Whether a message counts towards the role: a plain message or reply,
/// sent in a server by a member who does not have the role yet.
pub fn message_counts(is_regular_or_reply: bool, in_guild: bool, member_roles: Option<&Vec<u64>>) -> (r: bool)
    ensures
        r == (is_regular_or_reply && in_guild && match member_roles {
            Some(roles) => !roles@.contains(REGULAR_ROLE),
            None => false,
        }),
{
    if !is_regular_or_reply || !in_guild {
        return false;
    }
    match member_roles {
        Some(roles) => !has_role(roles, REGULAR_ROLE),
        None => false,
    }
}

/// Whether the day's message count still raises chattiness.
pub fn within_daily_limit(daily_messages: i64) -> (r: bool)
    ensures
        r == (daily_messages <= MAX_PER_DAY),
{
    daily_messages <= MAX_PER_DAY
}

/// What the bot does next about the regular role.
#[derive(Debug, PartialEq, Eq)]
pub enum RegularRoleAction {
    /// Nothing more is done.
    Done,
    /// Count the message in the author's messages of the day, and report the new count.
    IncreaseDailyMessages,
    /// Raise the author's chattiness, and report the new value.
    IncreaseChattiness,
    /// Read the member's chattiness, and report it.
    ReadChattiness,
    /// Give the member these roles.
    SetRoles(Vec<u64>),
}

/// The next step for a message: skip it unless it counts (see
/// [`message_counts`]); count it in the day's messages; stop once the day's
/// messages are over the limit; raise the chattiness; then grant the role
/// when the chattiness reached [`REQUIRED_CHATTINESS`].
pub open spec fn message_step(counts: bool, roles: Seq<u64>, daily: Option<i64>, chattiness: Option<i64>) -> Option<Option<Seq<u64>>> {
    if !counts {
        None
    } else {
        match daily {
            None => Some(None),
            Some(d) => if d > MAX_PER_DAY {
                None
            } else {
                match chattiness {
                    None => Some(None),
                    Some(c) => match earned_roles(roles, c) {
                        Some(v) => Some(Some(v)),
                        None => None,
                    },
                }
            },
        }
    }
}

/// What to do next for a message that a member sent, given whether the
/// message counts, the member's roles, the day's message count once it was
/// raised, and the chattiness once it was raised.
pub fn next_message_action(counts: bool, roles: &Vec<u64>, daily: Option<i64>, chattiness: Option<i64>) -> (r: RegularRoleAction)
    ensures
        match r {
            RegularRoleAction::Done => message_step(counts, roles@, daily, chattiness) is None,
            RegularRoleAction::IncreaseDailyMessages => counts && daily is None,
            RegularRoleAction::IncreaseChattiness => counts && (daily matches Some(d) && d <= MAX_PER_DAY)
                && chattiness is None,
            RegularRoleAction::ReadChattiness => false,
            RegularRoleAction::SetRoles(v) => message_step(counts, roles@, daily, chattiness) == Some(
                Some(v@),
            ),
        },
{
    if !counts {
        return RegularRoleAction::Done;
    }
    match daily {
        None => RegularRoleAction::IncreaseDailyMessages,
        Some(d) => {
            if !within_daily_limit(d) {
                return RegularRoleAction::Done;
            }
            match chattiness {
                None => RegularRoleAction::IncreaseChattiness,
                Some(c) => match grant_regular_role(roles, c) {
                    Some(v) => RegularRoleAction::SetRoles(v),
                    None => RegularRoleAction::Done,
                },
            }
        },
    }
}

/// What to do next for a member, given their roles and their chattiness
/// once it was read: nothing for a member who has the role; read the
/// chattiness; then grant the role when it reached [`REQUIRED_CHATTINESS`].
pub fn next_member_action(roles: &Vec<u64>, chattiness: Option<i64>) -> (r: RegularRoleAction)
    ensures
        match r {
            RegularRoleAction::Done => roles@.contains(REGULAR_ROLE) || (chattiness matches Some(c)
                && earned_roles(roles@, c) is None),
            RegularRoleAction::ReadChattiness => !roles@.contains(REGULAR_ROLE) && chattiness is None,
            RegularRoleAction::SetRoles(v) => !roles@.contains(REGULAR_ROLE) && (chattiness matches Some(c)
                && earned_roles(roles@, c) == Some(v@)),
            _ => false,
        },
{
    if has_role(roles, REGULAR_ROLE) {
        return RegularRoleAction::Done;
    }
    match chattiness {
        None => RegularRoleAction::ReadChattiness,
        Some(c) => match grant_regular_role(roles, c) {
            Some(v) => RegularRoleAction::SetRoles(v),
            None => RegularRoleAction::Done,
        },
    }
}

/// Granting the role twice does nothing the second time.
pub proof fn law_regular_role_granted_once(roles: Seq<u64>, chattiness: i64, later: i64)
    requires
        earned_roles(roles, chattiness) is Some,
    ensures
        earned_roles(earned_roles(roles, chattiness)->0, later) is None,
{
    assert(roles.push(REGULAR_ROLE)[roles.len() as int] == REGULAR_ROLE);
}

} // verus!
