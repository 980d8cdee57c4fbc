use refraction::consts::{BLUE, RED};
use refraction::help::{build_all_commands_embed, build_single_command_embed, collect_help_entries, CommandInfo};

fn cmd(name: &str, desc: Option<&str>, hidden: bool, invokable: bool, subs: Vec<CommandInfo>) -> CommandInfo {
    CommandInfo {
        name: name.to_string(),
        description: desc.map(|d| d.to_string()),
        help_text: None,
        hide_in_help: hidden,
        has_prefix_action: false,
        has_slash_action: invokable,
        subcommands: subs,
    }
}

fn sample() -> Vec<CommandInfo> {
    let mut tag = cmd("tag", Some("Send a tag"), false, true, vec![]);
    tag.help_text = Some("Available tags: `a`".to_string());
    vec![
        tag,
        cmd("ping", Some("Replies with pong!"), false, true, vec![]),
        cmd("secret", Some("hidden"), true, true, vec![cmd("inner", None, false, true, vec![])]),
        cmd("group", None, false, false, vec![cmd("sub", None, false, true, vec![]), cmd("Alpha", Some("a"), false, true, vec![])]),
    ]
}

#[test]
fn entries_are_collected_and_sorted() {
    let entries = collect_help_entries(&sample());
    let names: Vec<&str> = entries.iter().map(|e| e.name.as_str()).collect();
    assert_eq!(names, vec!["group Alpha", "group sub", "ping", "tag"]);
    assert_eq!(entries[1].description, "No description provided.");
}

#[test]
fn sort_is_stable_for_equal_names() {
    let cmds = vec![cmd("b", Some("1"), false, true, vec![]), cmd("a", Some("x"), false, true, vec![]), cmd("b", Some("2"), false, true, vec![])];
    let entries = collect_help_entries(&cmds);
    let pairs: Vec<(&str, &str)> = entries.iter().map(|e| (e.name.as_str(), e.description.as_str())).collect();
    assert_eq!(pairs, vec![("a", "x"), ("b", "1"), ("b", "2")]);
}

#[test]
fn sort_matches_string_order() {
    let names = ["zeta", "Zeta", "éclair", "eclair", "a", "ab", "", "Ω"];
    let cmds: Vec<CommandInfo> = names.iter().map(|n| cmd(n, None, false, true, vec![])).collect();
    let entries = collect_help_entries(&cmds);
    let got: Vec<&str> = entries.iter().map(|e| e.name.as_str()).collect();
    let mut expected: Vec<&str> = names.to_vec();
    expected.sort();
    assert_eq!(got, expected);
}

#[test]
fn all_commands_embed() {
    let entries = collect_help_entries(&sample());
    let e = build_all_commands_embed(&entries);
    assert_eq!(e.title.as_deref(), Some("Refraction Help"));
    assert_eq!(e.color, Some(BLUE));
    assert_eq!(
        e.description.as_deref(),
        Some("`/group Alpha` — a\n`/group sub` — No description provided.\n`/ping` — Replies with pong!\n`/tag` — Send a tag")
    );
    assert_eq!(e.footer.as_deref(), Some("Use /help <command> for details about one command."));
    let empty = build_all_commands_embed(&vec![]);
    assert_eq!(empty.description.as_deref(), Some("No commands are available."));
}

#[test]
fn single_command_embed() {
    let entries = collect_help_entries(&sample());
    let e = build_single_command_embed(&entries, "  //TAG ");
    assert_eq!(e.title.as_deref(), Some("📘 /tag"));
    assert_eq!(e.color, Some(BLUE));
    let fields: Vec<(&str, &str)> = e.fields.iter().map(|f| (f.name.as_str(), f.value.as_str())).collect();
    assert_eq!(fields, vec![("Description", "Send a tag"), ("Details", "Available tags: `a`")]);
    let e = build_single_command_embed(&entries, "group alpha");
    assert_eq!(e.fields.len(), 1);
}

#[test]
fn unknown_command_embed() {
    let entries = collect_help_entries(&sample());
    let e = build_single_command_embed(&entries, " /NoPe");
    assert_eq!(e.title.as_deref(), Some("Command not found"));
    assert_eq!(e.color, Some(RED));
    assert_eq!(
        e.description.as_deref(),
        Some("I couldn't find a command named `/nope`. Try `/help` to see all commands.")
    );
}
