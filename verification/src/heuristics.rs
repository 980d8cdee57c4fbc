//! Guessing what kind of log a text is.
use vstd::prelude::*;

use crate::regex_match::{regex_is_match, regex_matches};
use crate::text::{chars_of, contains, contains_str, occurs_at};

verus! {

/// The pattern of a Qt log line of the launcher: `1.234 W |`.
pub open spec fn qt_log_pattern() -> Seq<char> {
    "\\d\\.\\d{3} [CDFIW] \\|"@
}

/// The pattern of a log4j line: `[12:34:56] [thread/LEVEL] `.
pub open spec fn log4j_pattern() -> Seq<char> {
    "\\[\\d{2}:\\d{2}:\\d{2}\\] \\[.+?/(FATAL|ERROR|WARN|INFO|DEBUG|TRACE)\\] "@
}

/// Whether the log looks like a log of the launcher itself.
pub fn looks_like_launcher_log(log: &str) -> (r: bool)
    ensures
        r == regex_matches(qt_log_pattern(), log@),
{
    regex_is_match("\\d\\.\\d{3} [CDFIW] \\|", log)
}

/// Markers that only a Minecraft log carries.
pub open spec fn has_minecraft_markers(log: Seq<char>) -> bool {
    ||| contains(log, "Minecraft process ID: "@)
    ||| contains(log, "Setting user: "@)
    ||| contains(log, "Minecraft Version: "@)
    ||| contains(log, "Exception in thread "@)
    ||| contains(log, "Exception: "@)
    ||| contains(log, "Error: "@)
    ||| contains(log, "Throwable: "@)
    ||| contains(log, "Caused by: "@)
    ||| contains(log, "org.prismlauncher.EntryPoint.main(EntryPoint.java"@)
    ||| contains(log, "java.lang.Thread.run(Thread.java"@)
}

/// Logging-level tags of java.util.logging and friends.
pub open spec fn has_level_tags(log: Seq<char>) -> bool {
    ||| contains(log, "[INFO]"@)
    ||| contains(log, "[CONFIG]"@)
    ||| contains(log, "[FINE]"@)
    ||| contains(log, "[FINER]"@)
    ||| contains(log, "[FINEST]"@)
    ||| contains(log, "[SEVERE]"@)
    ||| contains(log, "[STDERR]"@)
    ||| contains(log, "[WARNING]"@)
    ||| contains(log, "[DEBUG]"@)
}

/// Whether the log looks like a Minecraft log: it carries one of the
/// Minecraft markers, a log4j line, or a logging-level tag.
pub fn looks_like_mc_log(log: &str) -> (r: bool)
    ensures
        r == (has_minecraft_markers(log@) || regex_matches(log4j_pattern(), log@) || has_level_tags(
            log@,
        )),
{
    let chars = chars_of(log);
    if contains_str(&chars, "Minecraft process ID: ") {
        return true;
    }
    if contains_str(&chars, "Setting user: ") || contains_str(&chars, "Minecraft Version: ") {
        return true;
    }
    if contains_str(&chars, "Exception in thread ") || contains_str(&chars, "Exception: ")
        || contains_str(&chars, "Error: ") || contains_str(&chars, "Throwable: ") || contains_str(
        &chars,
        "Caused by: ",
    ) {
        return true;
    }
    if contains_str(&chars, "org.prismlauncher.EntryPoint.main(EntryPoint.java") || contains_str(
        &chars,
        "java.lang.Thread.run(Thread.java",
    ) {
        return true;
    }
    if regex_is_match(
        "\\[\\d{2}:\\d{2}:\\d{2}\\] \\[.+?/(FATAL|ERROR|WARN|INFO|DEBUG|TRACE)\\] ",
        log,
    ) {
        return true;
    }
    contains_str(&chars, "[INFO]") || contains_str(&chars, "[CONFIG]") || contains_str(
        &chars,
        "[FINE]",
    ) || contains_str(&chars, "[FINER]") || contains_str(&chars, "[FINEST]") || contains_str(
        &chars,
        "[SEVERE]",
    ) || contains_str(&chars, "[STDERR]") || contains_str(&chars, "[WARNING]") || contains_str(
        &chars,
        "[DEBUG]",
    )
}

proof fn lemma_contains_in_extension(a: Seq<char>, b: Seq<char>, pat: Seq<char>)
    requires
        contains(a, pat),
    ensures
        contains(a + b, pat),
        contains(b + a, pat),
{
    let i = choose|i: int| #[trigger] occurs_at(a, pat, i);
    assert((a + b).subrange(i, i + pat.len()) =~= a.subrange(i, i + pat.len()));
    assert(occurs_at(a + b, pat, i));
    assert((b + a).subrange(b.len() + i, b.len() + i + pat.len()) =~= a.subrange(i, i + pat.len()));
    assert(occurs_at(b + a, pat, b.len() + i));
}

/// A text that carries a Minecraft marker or a logging-level tag keeps it
/// when more text is put before or after it, so it still looks like a
/// Minecraft log.
pub proof fn law_markers_survive_extension(a: Seq<char>, b: Seq<char>)
    requires
        has_minecraft_markers(a) || has_level_tags(a),
    ensures
        has_minecraft_markers(a + b) || has_level_tags(a + b),
        has_minecraft_markers(b + a) || has_level_tags(b + a),
{
    let pats = seq![
        "Minecraft process ID: "@,
        "Setting user: "@,
        "Minecraft Version: "@,
        "Exception in thread "@,
        "Exception: "@,
        "Error: "@,
        "Throwable: "@,
        "Caused by: "@,
        "org.prismlauncher.EntryPoint.main(EntryPoint.java"@,
        "java.lang.Thread.run(Thread.java"@,
        "[INFO]"@,
        "[CONFIG]"@,
        "[FINE]"@,
        "[FINER]"@,
        "[FINEST]"@,
        "[SEVERE]"@,
        "[STDERR]"@,
        "[WARNING]"@,
        "[DEBUG]"@,
    ];
    assert(exists|k: int| 0 <= k < pats.len() && contains(a, #[trigger] pats[k]));
    let k = choose|k: int| 0 <= k < pats.len() && contains(a, #[trigger] pats[k]);
    lemma_contains_in_extension(a, b, pats[k]);
}

} // verus!
