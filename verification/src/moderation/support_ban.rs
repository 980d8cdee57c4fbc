//! The support ban: a role that keeps a member out of the support channels.
use vstd::prelude::*;
use vstd::string::StringExecFns;

verus! {

/// The role that bans from support.
pub const ROLE_ID: u64 = 1149435921301786634;

/// The role of helpers, who may hand out support bans.
pub const HELPER_ID: u64 = 1391519658917761106;

/// Whether `roles` holds `role`.
pub fn has_role(roles: &Vec<u64>, role: u64) -> (r: bool)
    ensures
        r == roles@.contains(role),
{
    let mut i: usize = 0;
    while i < roles.len()
        invariant
            i <= roles.len(),
            forall|k: int| 0 <= k < i ==> roles@[k] != role,
        decreases roles.len() - i,
    {
        if roles[i] == role {
            return true;
        }
        i += 1;
    }
    false
}

/// What a support (un)ban does: change the member's roles or not, and reply.
#[derive(Debug)]
pub struct SupportBanOutcome {
    /// Whether the support-ban role is added (ban) or removed (unban).
    pub change_role: bool,
    pub reply: String,
}

/// Banning a member from support: a member who already has the role is
/// told so; otherwise the role is added.
pub fn support_ban(roles: &Vec<u64>, user_tag: &str) -> (r: SupportBanOutcome)
    ensures
        r.change_role == !roles@.contains(ROLE_ID),
        r.reply@ == if roles@.contains(ROLE_ID) {
            "❌ `"@ + user_tag@ + "` is already banned from support."@
        } else {
            "✅ Banned `"@ + user_tag@ + "` from support!"@
        },
{
    if has_role(roles, ROLE_ID) {
        let mut reply = String::from_str("❌ `");
        reply.append(user_tag);
        reply.append("` is already banned from support.");
        SupportBanOutcome { change_role: false, reply }
    } else {
        let mut reply = String::from_str("✅ Banned `");
        reply.append(user_tag);
        reply.append("` from support!");
        SupportBanOutcome { change_role: true, reply }
    }
}

/// Lifting a support ban: a member without the role is told so; otherwise
/// the role is removed.
pub fn support_unban(roles: &Vec<u64>, user_tag: &str) -> (r: SupportBanOutcome)
    ensures
        r.change_role == roles@.contains(ROLE_ID),
        r.reply@ == if !roles@.contains(ROLE_ID) {
            "❌ `"@ + user_tag@ + "` is not banned from support."@
        } else {
            "✅ Unbanned `"@ + user_tag@ + "` from support!"@
        },
{
    if !has_role(roles, ROLE_ID) {
        let mut reply = String::from_str("❌ `");
        reply.append(user_tag);
        reply.append("` is not banned from support.");
        SupportBanOutcome { change_role: false, reply }
    } else {
        let mut reply = String::from_str("✅ Unbanned `");
        reply.append(user_tag);
        reply.append("` from support!");
        SupportBanOutcome { change_role: true, reply }
    }
}

/// Who may use the support-ban commands: a member of the server who is a
/// helper or may manage roles.
pub fn require_helper(member_roles: Option<&Vec<u64>>, can_manage_roles: bool) -> (r: bool)
    ensures
        r == match member_roles {
            Some(roles) => roles@.contains(HELPER_ID) || can_manage_roles,
            None => false,
        },
{
    match member_roles {
        Some(roles) => has_role(roles, HELPER_ID) || can_manage_roles,
        None => false,
    }
}

} // verus!
