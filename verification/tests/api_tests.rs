use refraction::api::{mclogs, paste_gg, pluralkit, prism_meta, rory, github, user_agent};
use refraction::api::paste_gg::{Files, Response, Status};

#[test]
fn urls() {
    assert_eq!(mclogs::upload_url(), "https://api.mclo.gs/1/log");
    assert_eq!(mclogs::raw_log_url("abc"), "https://api.mclo.gs/1/raw/abc");
    assert_eq!(paste_gg::files_url("p1"), "https://api.paste.gg/v1/pastes/p1/files");
    assert_eq!(paste_gg::raw_file_url("p1", "f2"), "https://api.paste.gg/v1/pastes/p1/files/f2/raw");
    assert_eq!(pluralkit::message_url(1234567890123), "https://api.pluralkit.me/v2/messages/1234567890123");
    assert_eq!(prism_meta::package_json_url(), "https://meta.prismlauncher.org/v1/net.minecraft/package.json");
    assert_eq!(rory::purr_url(Some(42)), "https://rory.cat/purr/42");
    assert_eq!(rory::purr_url(None), "https://rory.cat/purr/");
    assert_eq!(user_agent(Some("2.1.0")), "refraction/2.1.0");
    assert_eq!(user_agent(None), "refraction/development");
}

fn files(status: Status, result: Option<Vec<&str>>, error: Option<&str>) -> Response<Files> {
    Response {
        status,
        result: result.map(|v| v.into_iter().map(|id| Files { id: id.to_string(), name: None }).collect()),
        error: error.map(|e| e.to_string()),
        message: None,
    }
}

#[test]
fn paste_gg_answers() {
    assert_eq!(paste_gg::files_from_response(files(Status::Error, None, Some("gone"))).unwrap_err(), "gone");
    assert_eq!(
        paste_gg::files_from_response(files(Status::Error, None, None)).unwrap_err(),
        "Paste.gg gave us an error but with no message!"
    );
    let ok = paste_gg::files_from_response(files(Status::Success, Some(vec!["f1", "f2"]), None)).unwrap();
    assert_eq!(paste_gg::first_file_id(&ok).unwrap(), "f1");
    assert_eq!(
        paste_gg::first_file_id(&files(Status::Success, None, None)).unwrap_err(),
        "Got an empty result from paste.gg!"
    );
    assert_eq!(
        paste_gg::first_file_id(&files(Status::Success, Some(vec![]), None)).unwrap_err(),
        "Couldn't get file id from empty paste.gg response!"
    );
}

#[test]
fn pluralkit_sender() {
    assert_eq!(pluralkit::sender_id(&pluralkit::Message { sender: "466378653216014359".to_string() }), Some(466378653216014359));
    assert_eq!(pluralkit::sender_id(&pluralkit::Message { sender: "abc".to_string() }), None);
}

#[test]
fn latest_minecraft() {
    let data = |r: Vec<&str>| prism_meta::MinecraftPackageJson {
        format_version: 1,
        name: "Minecraft".to_string(),
        recommended: r.into_iter().map(|s| s.to_string()).collect(),
        uid: "net.minecraft".to_string(),
    };
    assert_eq!(prism_meta::latest_version(&data(vec!["1.21.1", "1.20.6"])).unwrap(), "1.21.1");
    assert_eq!(
        prism_meta::latest_version(&data(vec![])).unwrap_err(),
        "Couldn't find latest version of Minecraft!"
    );
}

#[test]
fn rory_embeds() {
    let e = rory::rory_embed(rory::Response { id: 7, url: "https://r/7.png".to_string(), error: None });
    assert_eq!(e.title.as_deref(), Some("Rory :3"));
    assert_eq!(e.url.as_deref(), Some("https://r/7.png"));
    assert_eq!(e.image.as_deref(), Some("https://r/7.png"));
    assert_eq!(e.footer.as_deref(), Some("ID 7"));
    let e = rory::rory_embed(rory::Response { id: 0, url: String::new(), error: Some("no rory".to_string()) });
    assert_eq!(e.title.as_deref(), Some("Error!"));
    assert_eq!(e.description.as_deref(), Some("no rory"));
}

#[test]
fn stargazers() {
    assert_eq!(github::stargazers_count_from(Some(5)), Ok(5));
    assert_eq!(
        github::stargazers_count_from(None).unwrap_err(),
        "Couldn't retrieve stargazers_coutn from GitHub!"
    );
}
