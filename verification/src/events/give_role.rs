//! The role buttons of the welcome channel: pressing one toggles its role.
use vstd::prelude::*;
use vstd::string::StringExecFns;

use crate::config::discord::{channel_id_of, RefractionChannels};
use crate::moderation::support_ban::has_role;
use crate::text::{append_decimal, decimal};

verus! {

/// The role id that a button's custom id names (`RoleId::from_str`): a
/// non-zero `u64`.
pub fn role_id_from(custom_id: &str) -> (r: Option<u64>)
    ensures
        r == channel_id_of(custom_id@),
{
    RefractionChannels::channel_from_value(custom_id)
}

/// What pressing a role button does.
#[derive(Debug)]
pub struct RoleToggle {
    /// The role is added (`true`) or removed (`false`).
    pub add: bool,
    pub message: String,
}

/// Toggles `role_id` for a member holding `member_roles`: a held role is
/// removed, a missing one added.
pub fn toggle_role(member_roles: &Vec<u64>, role_id: u64, role_name: &str) -> (r: RoleToggle)
    ensures
        r.add == !member_roles@.contains(role_id),
        r.message@ == if member_roles@.contains(role_id) {
            "❌ Removed `"@ + role_name@ + "`"@
        } else {
            "✅ Added `"@ + role_name@ + "`"@
        },
{
    if has_role(member_roles, role_id) {
        let mut m = String::from_str("❌ Removed `");
        m.append(role_name);
        m.append("`");
        RoleToggle { add: false, message: m }
    } else {
        let mut m = String::from_str("✅ Added `");
        m.append(role_name);
        m.append("`");
        RoleToggle { add: true, message: m }
    }
}

/// The note sent when a button names a role the server does not have.
pub fn unknown_role_message(role_id: u64) -> (r: String)
    ensures
        r@ == "Role ID "@ + decimal(role_id as nat) + " doesn't seem to exist. Please let the moderators know!"@,
{
    let mut m = String::from_str("Role ID ");
    append_decimal(&mut m, role_id as u128);
    m.append(" doesn't seem to exist. Please let the moderators know!");
    m
}

} // verus!
