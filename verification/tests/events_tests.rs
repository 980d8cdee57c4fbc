use refraction::events::block_reaction::{days_fit, is_old};
use refraction::events::delete_on_reaction::should_delete;
use refraction::events::dms_vcs;
use refraction::events::eta::{eta_reply, mentions_eta, MESSAGES};
use refraction::events::give_role::{role_id_from, toggle_role, unknown_role_message};
use refraction::events::message_logger::content_changed;
use refraction::events::regular_role::{grant_regular_role, message_counts, within_daily_limit, REGULAR_ROLE};
use refraction::events::support_onboard::{is_fresh_public_thread, is_support_channel, missing_parent_message, onboarding_message};

#[test]
fn eta_detection_and_reply() {
    assert!(mentions_eta("any ETA on 9.0?"));
    assert!(mentions_eta("eta"));
    assert!(!mentions_eta("beta release"));
    assert_eq!(eta_reply(0), "Sometime <:pofat:1031701005559144458>");
    assert_eq!(eta_reply(31), "At the appropriate juncture, in due course, in the fullness of time <:pofat:1031701005559144458>");
    for t in 0..64u128 {
        let r = eta_reply(t);
        assert!(MESSAGES.iter().any(|m| r == format!("{m} <:pofat:1031701005559144458>")));
    }
}

#[test]
fn dm_and_vc_reminder() {
    assert_eq!(
        dms_vcs::reply_for("can you DM me?").as_deref(),
        Some("Please try to keep all support conversations here, run `/tag dm` to learn more.")
    );
    assert!(dms_vcs::reply_for("join the voice call").is_some());
    assert_eq!(dms_vcs::reply_for("admin panel"), None);
}

#[test]
fn role_buttons() {
    assert_eq!(role_id_from("1149435921301786634"), Some(1149435921301786634));
    assert_eq!(role_id_from("not a role"), None);
    let t = toggle_role(&vec![1, 2], 2, "Linux");
    assert!(!t.add);
    assert_eq!(t.message, "❌ Removed `Linux`");
    let t = toggle_role(&vec![1], 2, "Linux");
    assert!(t.add);
    assert_eq!(t.message, "✅ Added `Linux`");
    assert_eq!(unknown_role_message(9), "Role ID 9 doesn't seem to exist. Please let the moderators know!");
}

#[test]
fn reaction_deletion() {
    assert!(should_delete(Some(3), 3, Some("❌")));
    assert!(!should_delete(Some(3), 4, Some("❌")));
    assert!(!should_delete(Some(3), 3, Some("✅")));
    assert!(!should_delete(None, 3, Some("❌")));
    assert!(!should_delete(Some(3), 3, None));
}

#[test]
fn reaction_age() {
    assert!(is_old(86400, 0, 1));
    assert!(!is_old(86399, 999_999_999, 1));
    assert!(is_old(0, 0, 0));
    assert!(!is_old(0, -1, 0));
    assert!(is_old(-86400, 0, -1));
    assert!(days_fit(106751991167));
    assert!(!days_fit(106751991168));
    assert!(days_fit(-106751991167));
    assert!(!days_fit(-106751991168));
}

#[test]
fn days_fit_agrees_with_chrono() {
    for d in [0i64, 1, -1, 106751991167, 106751991168, -106751991167, -106751991168, i64::MAX, i64::MIN] {
        assert_eq!(days_fit(d), chrono::TimeDelta::try_days(d).is_some(), "for {d}");
    }
}

#[test]
fn regular_role() {
    assert_eq!(grant_regular_role(&vec![1], 200), Some(vec![1, REGULAR_ROLE]));
    assert_eq!(grant_regular_role(&vec![1], 199), None);
    assert_eq!(grant_regular_role(&vec![REGULAR_ROLE], 500), None);
    assert!(message_counts(true, true, Some(&vec![])));
    assert!(!message_counts(true, true, Some(&vec![REGULAR_ROLE])));
    assert!(!message_counts(false, true, Some(&vec![])));
    assert!(!message_counts(true, false, Some(&vec![])));
    assert!(!message_counts(true, true, None));
    assert!(within_daily_limit(25));
    assert!(!within_daily_limit(26));
}

#[test]
fn support_onboarding() {
    assert!(is_fresh_public_thread(true, false));
    assert!(!is_fresh_public_thread(true, true));
    assert!(is_support_channel("support"));
    assert!(!is_support_channel("Support"));
    assert_eq!(
        onboarding_message(77),
        "<@77> We've received your support ticket! Please upload your logs and post the link here if possible (run `tag log` to find out how). Please don't ping people for support questions, unless you have their permission."
    );
    assert_eq!(missing_parent_message("help me"), "Couldn't get parent ID from thread help me!");
}

#[test]
fn message_edits() {
    assert!(content_changed("new", "old"));
    assert!(!content_changed("same", "same"));
}
