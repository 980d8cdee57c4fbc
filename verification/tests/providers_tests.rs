use refraction::providers::{
    find_log_source, first_found, get_first_capture, Attachment, Haste, LogMessage, MCLogs, PasteBin, PasteGG,
    Provider, _0x0, HASTE_PATTERN,
};
use refraction::utils::{first_text_attachment, AttachmentInfo};

fn msg(content: &str) -> LogMessage {
    LogMessage { content: content.to_string(), attachments: vec![] }
}

fn att(name: &str, url: &str, ct: Option<&str>) -> AttachmentInfo {
    AttachmentInfo { filename: name.to_string(), url: url.to_string(), content_type: ct.map(|c| c.to_string()) }
}

#[test]
fn providers_are_tried_in_order() {
    assert_eq!(
        Provider::iterator(),
        vec![
            Provider::_0x0st(_0x0),
            Provider::Haste(Haste),
            Provider::MCLogs(MCLogs),
            Provider::PasteBin(PasteBin),
            Provider::PasteGG(PasteGG),
        ]
    );
}

#[test]
fn each_provider_finds_its_link() {
    let m = msg("see https://hst.sh/abc123.log please");
    assert_eq!(Provider::Haste(Haste).find_match(&m).as_deref(), Some("abc123.log"));
    assert_eq!(Provider::MCLogs(MCLogs).find_match(&msg("https://mclo.gs/XyZ9")).as_deref(), Some("XyZ9"));
    assert_eq!(
        Provider::PasteBin(PasteBin).find_match(&msg("https://pastebin.com/raw/k3y")).as_deref(),
        Some("k3y")
    );
    assert_eq!(
        Provider::PasteGG(PasteGG).find_match(&msg("https://paste.gg/p/someone/abcdef")).as_deref(),
        Some("abcdef")
    );
    assert_eq!(
        Provider::_0x0st(_0x0).find_match(&msg("log: https://0x0.st/H3.txt end")).as_deref(),
        Some("https://0x0.st/H3.txt")
    );
    assert_eq!(Provider::Haste(Haste).find_match(&msg("https://mclo.gs/XyZ9")), None);
}

#[test]
fn first_capture_helper() {
    assert_eq!(get_first_capture(HASTE_PATTERN, "https://hst.sh/raw/q.txt").as_deref(), Some("q.txt"));
    assert_eq!(get_first_capture("(a)|(b)", "b a"), Some("a".to_string()));
    assert_eq!(get_first_capture("(", "anything"), None);
}

#[test]
fn raw_urls() {
    assert_eq!(Provider::Haste(Haste).raw_url("abc").as_deref(), Some("https://hst.sh/raw/abc"));
    assert_eq!(Provider::MCLogs(MCLogs).raw_url("abc").as_deref(), Some("https://api.mclo.gs/1/raw/abc"));
    assert_eq!(Provider::PasteBin(PasteBin).raw_url("abc").as_deref(), Some("https://pastebin.com/raw/abc"));
    assert_eq!(Provider::_0x0st(_0x0).raw_url("https://0x0.st/a.b").as_deref(), Some("https://0x0.st/a.b"));
    assert_eq!(Provider::PasteGG(PasteGG).raw_url("abc"), None);
}

#[test]
fn log_source_prefers_earlier_providers() {
    let m = msg("https://pastebin.com/AAA and https://mclo.gs/BBB");
    assert_eq!(find_log_source(&m), Some((Provider::MCLogs(MCLogs), "BBB".to_string())));
    assert_eq!(find_log_source(&msg("nothing to see")), None);
}

#[test]
fn first_found_position() {
    assert_eq!(first_found(&vec![None, Some("x".to_string()), Some("y".to_string())]), Some(1));
    assert_eq!(first_found(&vec![None, None]), None);
    assert_eq!(first_found(&vec![]), None);
}

#[test]
fn text_attachments() {
    let atts = vec![
        att("a.png", "u1", Some("image/png")),
        att("b.txt", "u2", None),
        att("c.log", "u3", Some("text/plain; charset=utf-8")),
        att("d.log", "u4", Some("text/plain")),
    ];
    assert_eq!(first_text_attachment(&atts).map(|a| a.url.as_str()), Some("u3"));
    let m = LogMessage { content: String::new(), attachments: atts };
    assert_eq!(Attachment.find_match(&m).as_deref(), Some("u3"));
    assert_eq!(Attachment.find_match(&msg("x")), None);
}
