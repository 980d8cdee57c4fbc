//! Detection of an outdated Prism Launcher from the version a log reports.
//!
//! A launcher log carries a line `Prism Launcher version: X.Y.Z`; the
//! version read from it is compared with the newest release.
use vstd::prelude::*;
use vstd::string::StringExecFns;

use crate::regex_match::{first_group_capture, group_capture, regex_all_captures};
use crate::text::contains;
use crate::utils::{semver_split, version_numbers};

verus! {

/// The pattern that finds the launcher version in a log: the version is its
/// first capture group.
pub const VERSION_PATTERN: &'static str = "Prism Launcher version: ((?:([0-9]+)\\.)?([0-9]+)\\.([0-9]+))";

/// The launcher version that the log reports first, if it reports one: the
/// first capture group of [`VERSION_PATTERN`] at its first match (that
/// group takes part in every match). What is found is a piece of the log.
pub fn launcher_version_of(log: &str) -> (r: Option<String>)
    ensures
        match r {
            Some(v) => first_group_capture(regex_all_captures(VERSION_PATTERN@, log@), 1) == Some(v@) && contains(
                log@,
                v@,
            ),
            None => first_group_capture(regex_all_captures(VERSION_PATTERN@, log@), 1) is None,
        },
{
    group_capture(VERSION_PATTERN, log, 1)
}

/// Whether the version comparison can be made without reading past the end
/// of either list of numbers: the log's numbers must be non-empty, and when
/// there are exactly three of them the latest version must have as many
/// numbers as the comparison reaches.
pub open spec fn comparison_defined(log_parts: Seq<u32>, latest_parts: Seq<u32>) -> bool {
    if log_parts.len() != 3 {
        log_parts.len() >= 1
    } else {
        &&& latest_parts.len() >= 1
        &&& log_parts[0] == latest_parts[0] ==> latest_parts.len() >= 2
        &&& log_parts[0] == latest_parts[0] && log_parts[1] == latest_parts[1] ==> latest_parts.len() >= 3
    }
}

/// The log's launcher is reported outdated: its version does not have three
/// numbers, or it is lexicographically older than the latest version.
pub open spec fn is_outdated(log_parts: Seq<u32>, latest_parts: Seq<u32>) -> bool {
    ||| log_parts.len() != 3
    ||| log_parts[0] < latest_parts[0]
    ||| log_parts[0] == latest_parts[0] && log_parts[1] < latest_parts[1]
    ||| log_parts[0] == latest_parts[0] && log_parts[1] == latest_parts[1] && log_parts[2]
        < latest_parts[2]
}

/// The title of the outdated-launcher issue.
pub open spec fn outdated_title() -> Seq<char> {
    "Outdated Prism Launcher"@
}

/// The description of the outdated-launcher issue; launchers before major
/// version 8 are pointed to the download page.
pub open spec fn outdated_description(log_version: Seq<char>, latest_version: Seq<char>, before_8: bool) -> Seq<char> {
    "Your installed version is "@ + log_version + ", while the newest version is "@ + latest_version + if before_8 {
        ".\nPlease update; for more info see https://prismlauncher.org/download/"@
    } else {
        ".\nPlease update by pressing the `Update` button in the launcher or using your package manager."@
    }
}

/// The issue reported for a log whose launcher is `log_version` while the
/// newest release is `latest_version`, if the launcher is outdated.
pub open spec fn outdated_issue(log_version: Seq<char>, latest_version: Seq<char>) -> Option<(Seq<char>, Seq<char>)> {
    let log_parts = version_numbers(log_version);
    let latest_parts = version_numbers(latest_version);
    if is_outdated(log_parts, latest_parts) {
        Some((outdated_title(), outdated_description(log_version, latest_version, log_parts[0] < 8)))
    } else {
        None
    }
}

/// Whether the two versions can be compared (see [`comparison_defined`]).
pub fn versions_comparable(log_version: &str, latest_version: &str) -> (r: bool)
    ensures
        r == comparison_defined(version_numbers(log_version@), version_numbers(latest_version@)),
{
    let lp = semver_split(log_version);
    let lt = semver_split(latest_version);
    if lp.len() != 3 {
        lp.len() >= 1
    } else {
        lt.len() >= 1 && (lp[0] != lt[0] || lt.len() >= 2) && (lp[0] != lt[0] || lp[1] != lt[1]
            || lt.len() >= 3)
    }
}

/// The outdated-launcher issue for a log whose launcher is `log_version`
/// while the newest release is `latest_version`, or `None` when the launcher
/// is up to date.
pub fn outdated_launcher(log_version: &str, latest_version: &str) -> (r: Option<(String, String)>)
    requires
        comparison_defined(version_numbers(log_version@), version_numbers(latest_version@)),
    ensures
        match r {
            Some((title, description)) => outdated_issue(log_version@, latest_version@) == Some(
                (title@, description@),
            ),
            None => outdated_issue(log_version@, latest_version@) is None,
        },
{
    let lp = semver_split(log_version);
    let lt = semver_split(latest_version);
    let outdated = lp.len() != 3 || lp[0] < lt[0] || (lp[0] == lt[0] && lp[1] < lt[1]) || (lp[0]
        == lt[0] && lp[1] == lt[1] && lp[2] < lt[2]);
    if !outdated {
        return None;
    }
    let title = String::from_str("Outdated Prism Launcher");
    let mut description = String::from_str("Your installed version is ");
    description.append(log_version);
    description.append(", while the newest version is ");
    description.append(latest_version);
    if lp[0] < 8 {
        description.append(".\nPlease update; for more info see https://prismlauncher.org/download/");
    } else {
        description.append(
            ".\nPlease update by pressing the `Update` button in the launcher or using your package manager.",
        );
    }
    Some((title, description))
}

/// A launcher whose three-number version equals the newest release is never
/// reported as outdated.
pub proof fn law_current_launcher_not_outdated(version: Seq<char>)
    requires
        version_numbers(version).len() == 3,
    ensures
        outdated_issue(version, version) is None,
{
}

/// For three-number versions on both sides, the launcher is reported
/// outdated exactly when its version is lexicographically smaller than the
/// newest release, so a launcher newer than the release is not reported.
pub proof fn law_outdated_iff_older(log_version: Seq<char>, latest_version: Seq<char>)
    requires
        version_numbers(log_version).len() == 3,
        version_numbers(latest_version).len() == 3,
    ensures
        ({
            let a = version_numbers(log_version);
            let b = version_numbers(latest_version);
            (outdated_issue(log_version, latest_version) is Some) <==> (a[0] < b[0] || (a[0] == b[0]
                && (a[1] < b[1] || (a[1] == b[1] && a[2] < b[2]))))
        }),
{
}

} // verus!
