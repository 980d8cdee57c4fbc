use refraction::analyze_logs::{analysis_embed, collect_issues, download_failed_embed, NO_ISSUES_DESCRIPTION};
use refraction::consts::{Colors, GREEN, RED};
use refraction::issues::{format_issue, AnalyzedLog, FormattedIssueInfo, Issue, JavaVersion};

fn log_with(rec: Option<JavaVersion>) -> AnalyzedLog {
    AnalyzedLog { issues: vec![], recommended_java_version: rec }
}

fn text(issue: Issue, rec: Option<JavaVersion>) -> Option<(String, String)> {
    format_issue(&issue, &log_with(rec))
}

fn pair(a: &str, b: &str) -> Option<(String, String)> {
    Some((a.to_string(), b.to_string()))
}

#[test]
fn fixed_issue_texts() {
    assert_eq!(text(Issue::OutdatedFlatpakNvidiaDriver, None), pair("Outdated Nvidia Flatpak Driver", "The Nvidia driver for flatpak is outdated.
				Please run `flatpak update` to fix this issue. \
				If that does not solve it, \
				please wait until the driver is added to Flathub and run it again."));
    assert_eq!(text(Issue::LexforgeZlibng, None), pair("Forge on zlib-ng", "Some Linux distributions like CachyOS and Fedora
				use zlib-ng instead of classic zlib, which is 
				incompatible with MinecraftForge installers. \
				To fix this, add `-Dforgewrapper.skipHashCheck=true`
				in Edit > Settings > Java > Java arguments."));
    assert_eq!(text(Issue::NettyJavaAbove8, None), pair("Linux: broken multiplayer with 1.8-1.11 and Java 9+", "These versions of Minecraft use an outdated version of Netty which does not properly support Java 9.

				Switching to Java 8 or below will fix this issue. For more information, type `/tag java`.

				If you must use a newer version, do the following:
				- Open `options.txt` (in the main window Edit -> Open .minecraft) and change.
				- Find `useNativeTransport:true` and change it to `useNativeTransport:false`.
				Note: whilst Netty was introduced in 1.7, this option did not exist \
				which is why the issue was not present."));
    assert_eq!(text(Issue::LinuxOpenal, None), pair("Missing .alsoftrc", "OpenAL is likely missing the configuration file.
				To fix this, create a file named `.alsoftrc` in your home directory by running this command in your terminal:
				```
echo -e \"drivers=alsa\\nhrtf=true\" > ~/.alsoftrc```"));
    assert_eq!(text(Issue::X11ConnectFailure, None), pair("Flatpak crash", "To fix this crash, disable \"Fallback to X11 Windowing System\" in Flatseal."));
    assert_eq!(text(Issue::ChecksumMismatch, None), pair("Outdated cached files", "It looks like you need to delete cached files.
				To do that, press Folders ⟶ View Launcher Root Folder, and **after closing the launcher** delete the folder named \"meta\"."));
    assert_eq!(text(Issue::InvalidProxy, None), pair("Invalid proxy configuration", "Your proxy configuration in Prism settings seems to be incorrect.
				Try undoing it by selecing \"None\" in top toolbar > **Settings** > **Proxy**."));
}

#[test]
fn java_option_titles() {
    assert_eq!(
        text(Issue::JavaOption("-XX:UseShenandoahGC".to_string()), None),
        pair("Java 8 and below don't support ShenandoahGC", "Remove `-XX:UseShenandoahGC` from your Java arguments")
    );
    assert_eq!(
        text(Issue::JavaOption("-Xmx".to_string()), None),
        pair("Wrong Java Arguments", "Remove `-Xmx` from your Java arguments")
    );
}

#[test]
fn wrong_java_descriptions() {
    assert_eq!(
        text(Issue::WrongJava(Some(17)), Some(JavaVersion { major: 21, minor: Some(3) })),
        pair("Wrong Java Version", "Please switch to Java version 21 3\nFor more information, type `/tag java`")
    );
    assert_eq!(
        text(Issue::WrongJava(Some(17)), Some(JavaVersion { major: 8, minor: None })),
        pair("Wrong Java Version", "Please switch to Java version 8\nFor more information, type `/tag java`")
    );
    assert_eq!(
        text(Issue::WrongJava(Some(17)), None),
        pair("Wrong Java Version", "Please switch to Java version 17\nFor more information, type `/tag java`")
    );
    assert_eq!(
        text(Issue::WrongJava(None), None),
        pair("Wrong Java Version", "Please switch to another Java version\nFor more information, type `/tag java`")
    );
}

#[test]
fn counted_issue_titles() {
    let jars = vec!["a.jar".to_string(), "b.jar".to_string(), "c.jar".to_string()];
    assert_eq!(text(Issue::LockedJars(jars), None), pair("3 Locked Jars", "Something is locking your library jars."));
    let (title, _) = text(Issue::MissingLibraries(vec![]), None).unwrap();
    assert_eq!(title, "0 Missing Libraries");
}

#[test]
fn outdated_launcher_issue_is_left_to_the_networked_check() {
    assert_eq!(text(Issue::OutdatedLauncher, None), None);
}

#[test]
fn analyzer_formatted_issue_passes_through() {
    let info = FormattedIssueInfo { title: "Out of memory".to_string(), description: "Give it more".to_string() };
    assert_eq!(text(Issue::Formatted(info), None), pair("Out of memory", "Give it more"));
}

#[test]
fn collected_issues_keep_order_and_end_with_launcher() {
    let analyzed = AnalyzedLog {
        issues: vec![Issue::OutdatedLauncher, Issue::LockedJars(vec![]), Issue::JavaOption("-X".to_string())],
        recommended_java_version: None,
    };
    let outdated = Some(("Outdated Prism Launcher".to_string(), "x".to_string()));
    let found = collect_issues(&Some(analyzed), outdated);
    let titles: Vec<&str> = found.iter().map(|(t, _)| t.as_str()).collect();
    assert_eq!(titles, vec!["0 Locked Jars", "Wrong Java Arguments", "Outdated Prism Launcher"]);
    assert_eq!(collect_issues(&None, None), vec![]);
}

#[test]
fn analysis_embed_without_issues() {
    let e = analysis_embed(&vec![]);
    assert_eq!(e.title.as_deref(), Some("Log analysis"));
    assert_eq!(e.color, Some(GREEN));
    assert_eq!(e.description.as_deref(), Some(NO_ISSUES_DESCRIPTION));
    assert!(e.fields.is_empty());
}

#[test]
fn analysis_embed_with_issues() {
    let e = analysis_embed(&vec![("A".to_string(), "a".to_string()), ("B".to_string(), "b".to_string())]);
    assert_eq!(e.color, Some(RED));
    assert_eq!(e.color, Some(Colors::Red.value()));
    assert_eq!(e.description, None);
    let fields: Vec<(&str, &str, bool)> = e.fields.iter().map(|f| (f.name.as_str(), f.value.as_str(), f.inline)).collect();
    assert_eq!(fields, vec![("A", "a", false), ("B", "b", false)]);
}

#[test]
fn download_failure_embed() {
    let e = download_failed_embed();
    assert_eq!(e.title.as_deref(), Some("Analysis failed!"));
    assert_eq!(e.description.as_deref(), Some("Couldn't download log"));
}
