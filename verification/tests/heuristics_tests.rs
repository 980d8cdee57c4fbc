use refraction::analyze_logs::normalize_line_endings;
use refraction::heuristics::{looks_like_launcher_log, looks_like_mc_log};
use refraction::text::chars_of;

#[test]
fn launcher_log_is_recognised() {
    assert!(looks_like_launcher_log("0.123 W | Something happened"));
    assert!(looks_like_launcher_log("foo\n12.345 I | bar"));
    assert!(!looks_like_launcher_log("0.12 W | too few digits"));
    assert!(!looks_like_launcher_log("[12:00:00] [main/INFO]: hello"));
}

#[test]
fn minecraft_log_markers() {
    assert!(looks_like_mc_log("Minecraft process ID: 1234"));
    assert!(looks_like_mc_log("Setting user: Steve"));
    assert!(looks_like_mc_log("java.lang.NullPointerException: boom"));
    assert!(looks_like_mc_log("at java.lang.Thread.run(Thread.java:833)"));
    assert!(looks_like_mc_log("[12:34:56] [Render thread/WARN] "));
    assert!(looks_like_mc_log("[SEVERE] bad"));
    assert!(!looks_like_mc_log("hello there"));
    assert!(!looks_like_mc_log("[12:34:56] [main/NOTICE] "));
}

#[test]
fn line_endings_are_normalised() {
    let out: String = normalize_line_endings(&chars_of("a\r\nb\r\r\nc\n")).into_iter().collect();
    assert_eq!(out, "a\r\nb\r\r\nc\n".replace("\r\n", "\n"));
    assert_eq!(out, "a\nb\r\nc\n");
    let plain: String = normalize_line_endings(&chars_of("no crlf\rhere\n")).into_iter().collect();
    assert_eq!(plain, "no crlf\rhere\n");
}
