use refraction::commands::{delete_interaction, members_embed, ping_reply, say_log_embed, stars_embed};
use refraction::consts::{BLUE, RED, YELLOW};
use refraction::embed::EmbedField;
use refraction::error_handler::{argument_parse_response, command_error_embed};
use refraction::resolve_message::{find_first_image, quote_embed, BLITZ_BLUE};
use refraction::storage::plurality_key;
use refraction::tags::{find_tag, help, mention, tag_embed, Tag, TagFrontmatter};
use refraction::utils::AttachmentInfo;
use refraction::welcome::{
    check_attachment, parse_hex_colour, updated_reply, AttachmentCheck, WelcomeEmbed, WelcomeRole,
    WelcomeRoleCategory,
};

fn tag(id: &str, color: Option<&str>) -> Tag {
    Tag {
        content: format!("text of {id}"),
        id: id.to_string(),
        frontmatter: TagFrontmatter {
            title: format!("Title {id}"),
            aliases: None,
            color: color.map(|c| c.to_string()),
            image: Some("https://img".to_string()),
            fields: Some(vec![EmbedField { name: "n".to_string(), value: "v".to_string(), inline: true }]),
        },
    }
}

#[test]
fn tags_are_found_and_listed() {
    let tags = vec![tag("java", Some("blue")), tag("log", None), tag("vcredist", Some("pink"))];
    assert_eq!(find_tag(&tags, "log").unwrap().id, "log");
    assert_eq!(find_tag(&tags, "nope").unwrap_err(), "Tried to get non-existent tag: nope");
    assert_eq!(help(&tags), "Available tags: `java`, `log`, `vcredist`");
    assert_eq!(help(&vec![]), "Available tags: ");
    assert_eq!(mention(12), "<@12>");
}

#[test]
fn tag_embeds() {
    let e = tag_embed(&tag("java", Some("blue")));
    assert_eq!(e.color, Some(BLUE));
    assert_eq!(e.title.as_deref(), Some("Title java"));
    assert_eq!(e.description.as_deref(), Some("text of java"));
    assert_eq!(e.image.as_deref(), Some("https://img"));
    assert_eq!(e.fields.len(), 1);
    assert!(e.fields[0].inline);
    assert_eq!(tag_embed(&tag("x", Some("pink"))).color, Some(0));
    assert_eq!(tag_embed(&tag("x", None)).color, None);
}

#[test]
fn welcome_colours() {
    assert_eq!(parse_hex_colour("FF0000"), Some(0xFF0000));
    assert_eq!(parse_hex_colour("-1"), Some(0xFFFF_FFFF));
    assert_eq!(parse_hex_colour("zz"), None);
    assert_eq!(parse_hex_colour("#FF0000"), None);
    for h in ["abc", "7FFFFFFF", "80000000", "+10", "-80000000", ""] {
        assert_eq!(parse_hex_colour(h), i32::from_str_radix(h, 16).ok().map(|v| v as u32), "for {h:?}");
    }
}

#[test]
fn welcome_messages() {
    let e = WelcomeEmbed {
        title: "Hi".to_string(),
        description: Some("d".to_string()),
        url: None,
        hex_color: Some("00ff00".to_string()),
        image: None,
    };
    let spec = e.to_embed().unwrap();
    assert_eq!(spec.color, Some(0x00ff00));
    assert_eq!(spec.description.as_deref(), Some("d"));
    let bad = WelcomeEmbed { hex_color: Some("green".to_string()), ..e };
    assert!(bad.to_embed().is_none());
    let cat = WelcomeRoleCategory {
        title: "Platforms".to_string(),
        description: Some("Pick one".to_string()),
        roles: vec![WelcomeRole { title: "Linux".to_string(), id: 99, emoji: Some("🐧".to_string()) }],
    };
    let m = cat.to_message();
    assert_eq!(m.content, "**Platforms**\nPick one");
    assert_eq!(m.buttons[0].custom_id, "99");
    assert_eq!(m.buttons[0].label, "Linux");
    assert_eq!(m.buttons[0].emoji.as_deref(), Some("🐧"));
    assert_eq!(check_attachment(Some("application/json; charset=utf-8")), AttachmentCheck::Json);
    assert_eq!(check_attachment(Some("application/json")), AttachmentCheck::NotJson);
    assert_eq!(check_attachment(None), AttachmentCheck::NoContentType);
    assert_eq!(updated_reply(5), "Updated <#5>!");
}

#[test]
fn storage_keys() {
    assert_eq!(plurality_key(123), "pluralkit-v1:123");
    assert_ne!(plurality_key(1), plurality_key(11));
}

#[test]
fn quoting_messages() {
    let atts = vec![
        AttachmentInfo { filename: "a.txt".to_string(), url: "u1".to_string(), content_type: Some("text/plain".to_string()) },
        AttachmentInfo { filename: "b.png".to_string(), url: "u2".to_string(), content_type: Some("image/png".to_string()) },
    ];
    assert_eq!(find_first_image(&atts).as_deref(), Some("u2"));
    let e = quote_embed("me".to_string(), "icon".to_string(), "general", "hello", "https://l", &atts, Some("img".to_string()));
    assert_eq!(e.color, Some(BLITZ_BLUE));
    assert_eq!(e.footer.as_deref(), Some("#general"));
    assert_eq!(e.description.as_deref(), Some("hello\n\n[Jump to original message](https://l)"));
    assert_eq!(e.fields[1].value, "[b.png](u2)");
    assert_eq!(e.image.as_deref(), Some("img"));
    let e = quote_embed("me".to_string(), "icon".to_string(), "g", "x", "l", &vec![], Some("img".to_string()));
    assert_eq!(e.image, None);
}

#[test]
fn argument_errors() {
    assert_eq!(
        argument_parse_response(Some("abc"), "invalid digit", Some("Use a number"), true, "rory"),
        "**Cannot parse `abc` as argument: invalid digit**\n\nUse a number\n\n**Tip:** Edit your message to update the response.\nFor more information, refer to /help rory.\n"
    );
    assert_eq!(
        argument_parse_response(None, "too few", None, false, "tag"),
        "**too few**\n\nFor more information, refer to /help tag.\n"
    );
    let e = command_error_embed();
    assert_eq!(e.title.as_deref(), Some("Something went wrong!"));
    assert_eq!(e.color, Some(RED));
}

#[test]
fn general_command_replies() {
    assert_eq!(
        ping_reply(12, Some(40)),
        "<:catstareback:1078622789885497414> Pong!\n\nRTT: 12ms\nGateway: 40ms"
    );
    assert_eq!(
        ping_reply(3, None),
        "<:catstareback:1078622789885497414> Pong!\n\nRTT: 3ms\nGateway: Undetermined"
    );
    let e = stars_embed(6200);
    assert_eq!(e.title.as_deref(), Some("⭐ 6200 total stars!"));
    assert_eq!(e.color, Some(YELLOW));
    let e = members_embed(10, 3);
    assert_eq!(e.title.as_deref(), Some("10 total members!"));
    assert_eq!(e.description.as_deref(), Some("3 online members"));
    let e = say_log_embed("hi".to_string(), "mod#1".to_string(), None);
    assert_eq!(e.title.as_deref(), Some("Say command used!"));
    assert_eq!(e.author.unwrap().name, "mod#1");
    let d = delete_interaction(Some(1), 1);
    assert!(d.delete);
    assert_eq!(d.reply, "🗑️ Deleted command!");
    assert_eq!(delete_interaction(Some(1), 2).reply, "❌ You cannot delete commands run by other users");
    assert_eq!(delete_interaction(None, 2).reply, "❌ This message does not contain a command");
}
