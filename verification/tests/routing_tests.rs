use refraction::error_handler::{check_failed_answer, CheckFailedAnswer};
use refraction::events::regular_role::{
    next_member_action, next_message_action, RegularRoleAction, MAX_PER_DAY, REGULAR_ROLE,
    REQUIRED_CHATTINESS,
};
use refraction::events::routing::{next_message_step, MessageStep};
use refraction::heuristics::looks_like_mc_log;
use refraction::launcher_version::launcher_version_of;
use refraction::providers::get_first_capture;
use refraction::resolve_message::message_links;
use refraction::storage::{chattiness_key, daily_messages_key};
use refraction::utils::semver_split;

#[test]
fn bots_and_self_are_ignored() {
    assert_eq!(next_message_step(true, false, 5, 9, true, false, None, None), MessageStep::Ignore);
    assert_eq!(next_message_step(false, false, 9, 9, false, false, None, None), MessageStep::Ignore);
    // a webhook post from a bot account (PluralKit) is answered
    assert_eq!(next_message_step(true, true, 5, 9, false, false, None, None), MessageStep::Handle);
}

#[test]
fn pluralkit_messages_are_checked_in_order() {
    assert_eq!(next_message_step(false, false, 5, 9, true, false, None, None), MessageStep::RecordPluralKit);
    assert_eq!(next_message_step(false, false, 5, 9, true, true, None, None), MessageStep::CheckPlurality);
    assert_eq!(next_message_step(false, false, 5, 9, true, true, Some(false), None), MessageStep::Handle);
    assert_eq!(next_message_step(false, false, 5, 9, true, true, Some(true), None), MessageStep::CheckProxied);
    assert_eq!(next_message_step(false, false, 5, 9, true, true, Some(true), Some(true)), MessageStep::Ignore);
    assert_eq!(next_message_step(false, false, 5, 9, true, true, Some(true), Some(false)), MessageStep::Handle);
}

#[test]
fn failed_checks_are_answered() {
    assert_eq!(check_failed_answer(true, true), CheckFailedAnswer::LogError);
    assert_eq!(check_failed_answer(false, true), CheckFailedAnswer::TellNotAllowed);
    assert_eq!(check_failed_answer(false, false), CheckFailedAnswer::Nothing);
}

#[test]
fn message_steps_towards_the_regular_role() {
    let roles = vec![1u64, 2];
    assert_eq!(next_message_action(false, &roles, None, None), RegularRoleAction::Done);
    assert_eq!(next_message_action(true, &roles, None, None), RegularRoleAction::IncreaseDailyMessages);
    assert_eq!(next_message_action(true, &roles, Some(MAX_PER_DAY + 1), None), RegularRoleAction::Done);
    assert_eq!(next_message_action(true, &roles, Some(MAX_PER_DAY), None), RegularRoleAction::IncreaseChattiness);
    assert_eq!(
        next_message_action(true, &roles, Some(3), Some(REQUIRED_CHATTINESS - 1)),
        RegularRoleAction::Done
    );
    assert_eq!(
        next_message_action(true, &roles, Some(3), Some(REQUIRED_CHATTINESS)),
        RegularRoleAction::SetRoles(vec![1, 2, REGULAR_ROLE])
    );
}

#[test]
fn member_steps_towards_the_regular_role() {
    let roles = vec![7u64];
    assert_eq!(next_member_action(&roles, None), RegularRoleAction::ReadChattiness);
    assert_eq!(next_member_action(&roles, Some(10)), RegularRoleAction::Done);
    assert_eq!(next_member_action(&roles, Some(500)), RegularRoleAction::SetRoles(vec![7, REGULAR_ROLE]));
    let regular = vec![REGULAR_ROLE];
    assert_eq!(next_member_action(&regular, None), RegularRoleAction::Done);
}

#[test]
fn member_keys_name_the_user() {
    assert_eq!(chattiness_key(42), "chattiness-v1:42");
    assert_eq!(daily_messages_key(7), "daily-messages-v1:7");
}

#[test]
fn message_links_without_links() {
    assert_eq!(message_links("no links here"), Some(vec![]));
    assert_eq!(message_links("https://discord.com/channels/1/2/3"), Some(vec![]));
}

#[test]
fn message_links_cannot_split_a_match() {
    // the pattern's first group is optional, so a match never splits into three groups
    assert_eq!(message_links("see /https://discord.com/channels/1/2/3/g; please"), None);
}

#[test]
fn group_capture_takes_the_first_match_with_the_group() {
    assert_eq!(get_first_capture("a(b)?", "a ab"), Some("b".to_string()));
    assert_eq!(get_first_capture("x(y)", "no match"), None);
    assert_eq!(get_first_capture("x(y)", "xy"), Some("y".to_string()));
    assert_eq!(get_first_capture("x(y)", "x"), None);
}

#[test]
fn launcher_version_from_regex() {
    assert_eq!(launcher_version_of("Prism Launcher version: 10.0.2 (x)").as_deref(), Some("10.0.2"));
}

#[test]
fn version_round_trip() {
    for v in [vec![1u32], vec![8, 2, 1], vec![0, 4294967295, 10]] {
        let text = v.iter().map(|x| x.to_string()).collect::<Vec<String>>().join(".");
        assert_eq!(semver_split(&text), v);
    }
}

#[test]
fn markers_survive_extension() {
    let a = "Caused by: x";
    assert!(looks_like_mc_log(a));
    assert!(looks_like_mc_log(&format!("{a} and more")));
    assert!(looks_like_mc_log(&format!("before {a}")));
}
