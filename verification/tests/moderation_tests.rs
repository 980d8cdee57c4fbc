use refraction::moderation::actions::{handle_steps, Ban, Kick, ModAction, ModActionInfo, Timeout};
use refraction::moderation::support_ban::{require_helper, support_ban, support_unban, HELPER_ID, ROLE_ID};
use refraction::moderation::{mass_ban_reply, mass_kick_reply, purge_days, split_list};

#[test]
fn ban_fields_and_texts() {
    let a = ModAction { reason: Some("spam".to_string()), data: Ban { purge_messages_days: 3 } };
    assert_eq!(
        a.get_all_fields(),
        vec![
            ("Reason:".to_string(), "spam".to_string(), false),
            ("Purged messages:".to_string(), "Last 3 day(s)".to_string(), false),
        ]
    );
    assert_eq!(a.log_title(), "Banned user!");
    assert_eq!(a.reply_text("steve", Some(true)), "Banned steve! (user notified with direct message)");
    assert_eq!(a.reply_text("steve", None), "Banned steve!");
    assert_eq!(a.dm_title("Prism"), "Banned from Prism!");
    assert_eq!(a.dm_description().as_deref(), Some("Reason: spam"));
    assert_eq!(a.actual_reason(), "spam");
}

#[test]
fn kick_without_reason() {
    let a = ModAction { reason: None, data: Kick {} };
    assert!(a.get_all_fields().is_empty());
    assert_eq!(a.data.to_fields(), None);
    assert_eq!(a.log_title(), "Kicked user!");
    assert_eq!(a.reply_text("alex", Some(false)), "Kicked alex!");
    assert_eq!(a.dm_description(), None);
    assert_eq!(a.actual_reason(), "");
}

#[test]
fn timeout_fields() {
    let t = Timeout { time_until: "2025-01-01T00:00:00Z".to_string() };
    assert_eq!(t.description(), "Timed out");
    assert_eq!(t.to_fields(), Some(vec![("Timed out until:".to_string(), "2025-01-01T00:00:00Z".to_string(), false)]));
}

#[test]
fn handling_steps() {
    let s = handle_steps(Some(true), None, false);
    assert!(s.ephemeral && !s.dm_user && !s.reply);
    let s = handle_steps(None, Some(true), true);
    assert!(!s.ephemeral && s.dm_user && s.reply);
}

#[test]
fn lists_of_users() {
    assert_eq!(split_list("a, b ,c"), vec!["a", "b", "c"]);
    assert_eq!(split_list(""), vec![""]);
    assert_eq!(split_list("x,,y"), vec!["x", "", "y"]);
    assert_eq!(mass_ban_reply(3), "3 users banned!");
    assert_eq!(mass_kick_reply(0), "0 users kicked!");
    assert_eq!(purge_days(None), 0);
    assert_eq!(purge_days(Some(7)), 7);
}

#[test]
fn support_bans() {
    let banned = vec![5, ROLE_ID];
    let r = support_ban(&banned, "user#1");
    assert!(!r.change_role);
    assert_eq!(r.reply, "❌ `user#1` is already banned from support.");
    let r = support_ban(&vec![5], "user#1");
    assert!(r.change_role);
    assert_eq!(r.reply, "✅ Banned `user#1` from support!");
    let r = support_unban(&vec![], "u");
    assert!(!r.change_role);
    assert_eq!(r.reply, "❌ `u` is not banned from support.");
    let r = support_unban(&banned, "u");
    assert!(r.change_role);
    assert_eq!(r.reply, "✅ Unbanned `u` from support!");
}

#[test]
fn helper_check() {
    assert!(require_helper(Some(&vec![HELPER_ID]), false));
    assert!(require_helper(Some(&vec![]), true));
    assert!(!require_helper(Some(&vec![1]), false));
    assert!(!require_helper(None, true));
}
