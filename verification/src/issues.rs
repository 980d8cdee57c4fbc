//! Turning the issues found in a log into the titles and descriptions the
//! bot posts.
use vstd::prelude::*;
use vstd::string::StringExecFns;

use crate::issue_text;
use crate::text::{append_decimal, chars_eq, chars_of, decimal};

verus! {

/// An issue that the log analyzer formats by itself: its title and description.
#[derive(Debug)]
pub struct FormattedIssueInfo {
    pub title: String,
    pub description: String,
}

/// A Java version that the log analyzer recommends.
#[derive(Debug)]
pub struct JavaVersion {
    pub major: u64,
    pub minor: Option<u64>,
}

/// An issue that the log analyzer found in a log.
#[derive(Debug)]
pub enum Issue {
    OutdatedFlatpakNvidiaDriver,
    FabricInternalAccess,
    LexforgeZlibng,
    ForgeJava,
    IntelHd,
    Lwjgl2JavaAbove8,
    MacOSNSInternal,
    Optifine,
    NettyJavaAbove8,
    ForgeMissingDependencies,
    NewJavaOldForgeLegacyJavaFixer,
    MissingIndium,
    Java32BitMemoryLimit,
    WrongIntermediaryMappingsVersion,
    NewJavaOldForgeIgnoreCerts,
    ChecksumMismatch,
    NvidiaLinux,
    LinuxOpenal,
    X11ConnectFailure,
    OldJavaMacOs,
    MissingXrandr,
    InstanceDataCorrupted,
    InvalidProxy,
    /// A Java argument that should be removed.
    JavaOption(String),
    /// The launcher is outdated (left to the networked check).
    OutdatedLauncher,
    /// The wrong Java version, with the one the log asks for if known.
    WrongJava(Option<u64>),
    /// Library jars that something locks.
    LockedJars(Vec<String>),
    /// Libraries that are missing.
    MissingLibraries(Vec<String>),
    /// An issue that the analyzer formats by itself.
    Formatted(FormattedIssueInfo),
}

/// What the bot reads of an analyzed log.
#[derive(Debug)]
pub struct AnalyzedLog {
    pub issues: Vec<Issue>,
    pub recommended_java_version: Option<JavaVersion>,
}

/// The Java argument whose issue gets its own title.
pub const SHENANDOAH_FLAG: &'static str = "-XX:UseShenandoahGC";

/// The tail of every `WrongJava` description.
pub open spec fn java_tag_hint() -> Seq<char> {
    "\nFor more information, type `/tag java`"@
}

/// The description of a `WrongJava` issue.
pub open spec fn wrong_java_description(recommended: Option<JavaVersion>, version: Option<u64>) -> Seq<char> {
    match (recommended, version) {
        (Some(v), _) => "Please switch to Java version "@ + decimal(v.major as nat) + match v.minor {
            Some(m) => " "@ + decimal(m as nat),
            None => Seq::empty(),
        } + java_tag_hint(),
        (_, Some(version)) => "Please switch to Java version "@ + decimal(version as nat) + java_tag_hint(),
        (_, _) => "Please switch to another Java version"@ + java_tag_hint(),
    }
}

/// The title and description the bot posts for `issue`, found in a log for
/// which the analyzer recommends `recommended`; `None` for an issue the bot
/// leaves out.
pub open spec fn issue_text(issue: Issue, recommended: Option<JavaVersion>) -> Option<(Seq<char>, Seq<char>)> {
    match issue {
        Issue::OutdatedFlatpakNvidiaDriver => Some((issue_text::OUTDATED_FLATPAK_NVIDIA_DRIVER_TITLE@, issue_text::OUTDATED_FLATPAK_NVIDIA_DRIVER_DESCRIPTION@)),
        Issue::FabricInternalAccess => Some((issue_text::FABRIC_INTERNAL_ACCESS_TITLE@, issue_text::FABRIC_INTERNAL_ACCESS_DESCRIPTION@)),
        Issue::LexforgeZlibng => Some((issue_text::LEXFORGE_ZLIBNG_TITLE@, issue_text::LEXFORGE_ZLIBNG_DESCRIPTION@)),
        Issue::ForgeJava => Some((issue_text::FORGE_JAVA_TITLE@, issue_text::FORGE_JAVA_DESCRIPTION@)),
        Issue::IntelHd => Some((issue_text::INTEL_HD_TITLE@, issue_text::INTEL_HD_DESCRIPTION@)),
        Issue::Lwjgl2JavaAbove8 => Some((issue_text::LWJGL2_JAVA_ABOVE8_TITLE@, issue_text::LWJGL2_JAVA_ABOVE8_DESCRIPTION@)),
        Issue::MacOSNSInternal => Some((issue_text::MAC_O_S_N_S_INTERNAL_TITLE@, issue_text::MAC_O_S_N_S_INTERNAL_DESCRIPTION@)),
        Issue::Optifine => Some((issue_text::OPTIFINE_TITLE@, issue_text::OPTIFINE_DESCRIPTION@)),
        Issue::NettyJavaAbove8 => Some((issue_text::NETTY_JAVA_ABOVE8_TITLE@, issue_text::NETTY_JAVA_ABOVE8_DESCRIPTION@)),
        Issue::ForgeMissingDependencies => Some((issue_text::FORGE_MISSING_DEPENDENCIES_TITLE@, issue_text::FORGE_MISSING_DEPENDENCIES_DESCRIPTION@)),
        Issue::NewJavaOldForgeLegacyJavaFixer => Some((issue_text::NEW_JAVA_OLD_FORGE_LEGACY_JAVA_FIXER_TITLE@, issue_text::NEW_JAVA_OLD_FORGE_LEGACY_JAVA_FIXER_DESCRIPTION@)),
        Issue::MissingIndium => Some((issue_text::MISSING_INDIUM_TITLE@, issue_text::MISSING_INDIUM_DESCRIPTION@)),
        Issue::Java32BitMemoryLimit => Some((issue_text::JAVA32_BIT_MEMORY_LIMIT_TITLE@, issue_text::JAVA32_BIT_MEMORY_LIMIT_DESCRIPTION@)),
        Issue::WrongIntermediaryMappingsVersion => Some((issue_text::WRONG_INTERMEDIARY_MAPPINGS_VERSION_TITLE@, issue_text::WRONG_INTERMEDIARY_MAPPINGS_VERSION_DESCRIPTION@)),
        Issue::NewJavaOldForgeIgnoreCerts => Some((issue_text::NEW_JAVA_OLD_FORGE_IGNORE_CERTS_TITLE@, issue_text::NEW_JAVA_OLD_FORGE_IGNORE_CERTS_DESCRIPTION@)),
        Issue::ChecksumMismatch => Some((issue_text::CHECKSUM_MISMATCH_TITLE@, issue_text::CHECKSUM_MISMATCH_DESCRIPTION@)),
        Issue::NvidiaLinux => Some((issue_text::NVIDIA_LINUX_TITLE@, issue_text::NVIDIA_LINUX_DESCRIPTION@)),
        Issue::LinuxOpenal => Some((issue_text::LINUX_OPENAL_TITLE@, issue_text::LINUX_OPENAL_DESCRIPTION@)),
        Issue::X11ConnectFailure => Some((issue_text::X11_CONNECT_FAILURE_TITLE@, issue_text::X11_CONNECT_FAILURE_DESCRIPTION@)),
        Issue::OldJavaMacOs => Some((issue_text::OLD_JAVA_MAC_OS_TITLE@, issue_text::OLD_JAVA_MAC_OS_DESCRIPTION@)),
        Issue::MissingXrandr => Some((issue_text::MISSING_XRANDR_TITLE@, issue_text::MISSING_XRANDR_DESCRIPTION@)),
        Issue::InstanceDataCorrupted => Some((issue_text::INSTANCE_DATA_CORRUPTED_TITLE@, issue_text::INSTANCE_DATA_CORRUPTED_DESCRIPTION@)),
        Issue::InvalidProxy => Some((issue_text::INVALID_PROXY_TITLE@, issue_text::INVALID_PROXY_DESCRIPTION@)),
        Issue::JavaOption(arg) => Some((
            if arg@ == SHENANDOAH_FLAG@ { issue_text::SHENANDOAH_TITLE@ } else { issue_text::WRONG_JAVA_ARGUMENTS_TITLE@ },
            "Remove `"@ + arg@ + "` from your Java arguments"@,
        )),
        Issue::OutdatedLauncher => None,
        Issue::WrongJava(version) => Some((issue_text::WRONG_JAVA_TITLE@, wrong_java_description(recommended, version))),
        Issue::LockedJars(jars) => Some((decimal(jars@.len()) + " Locked Jars"@, issue_text::LOCKED_JARS_DESCRIPTION@)),
        Issue::MissingLibraries(libs) => Some((decimal(libs@.len()) + " Missing Libraries"@, issue_text::MISSING_LIBRARIES_DESCRIPTION@)),
        Issue::Formatted(info) => Some((info.title@, info.description@)),
    }
}

/// Every fixed issue is reported with its own title and its own
/// description, whatever Java version the log asks for.
pub proof fn law_fixed_issue_texts(recommended: Option<JavaVersion>)
    ensures
        issue_text(Issue::OutdatedFlatpakNvidiaDriver, recommended) == Some((issue_text::OUTDATED_FLATPAK_NVIDIA_DRIVER_TITLE@, issue_text::OUTDATED_FLATPAK_NVIDIA_DRIVER_DESCRIPTION@)),
        issue_text(Issue::FabricInternalAccess, recommended) == Some((issue_text::FABRIC_INTERNAL_ACCESS_TITLE@, issue_text::FABRIC_INTERNAL_ACCESS_DESCRIPTION@)),
        issue_text(Issue::LexforgeZlibng, recommended) == Some((issue_text::LEXFORGE_ZLIBNG_TITLE@, issue_text::LEXFORGE_ZLIBNG_DESCRIPTION@)),
        issue_text(Issue::ForgeJava, recommended) == Some((issue_text::FORGE_JAVA_TITLE@, issue_text::FORGE_JAVA_DESCRIPTION@)),
        issue_text(Issue::IntelHd, recommended) == Some((issue_text::INTEL_HD_TITLE@, issue_text::INTEL_HD_DESCRIPTION@)),
        issue_text(Issue::Lwjgl2JavaAbove8, recommended) == Some((issue_text::LWJGL2_JAVA_ABOVE8_TITLE@, issue_text::LWJGL2_JAVA_ABOVE8_DESCRIPTION@)),
        issue_text(Issue::MacOSNSInternal, recommended) == Some((issue_text::MAC_O_S_N_S_INTERNAL_TITLE@, issue_text::MAC_O_S_N_S_INTERNAL_DESCRIPTION@)),
        issue_text(Issue::Optifine, recommended) == Some((issue_text::OPTIFINE_TITLE@, issue_text::OPTIFINE_DESCRIPTION@)),
        issue_text(Issue::NettyJavaAbove8, recommended) == Some((issue_text::NETTY_JAVA_ABOVE8_TITLE@, issue_text::NETTY_JAVA_ABOVE8_DESCRIPTION@)),
        issue_text(Issue::ForgeMissingDependencies, recommended) == Some((issue_text::FORGE_MISSING_DEPENDENCIES_TITLE@, issue_text::FORGE_MISSING_DEPENDENCIES_DESCRIPTION@)),
        issue_text(Issue::NewJavaOldForgeLegacyJavaFixer, recommended) == Some((issue_text::NEW_JAVA_OLD_FORGE_LEGACY_JAVA_FIXER_TITLE@, issue_text::NEW_JAVA_OLD_FORGE_LEGACY_JAVA_FIXER_DESCRIPTION@)),
        issue_text(Issue::MissingIndium, recommended) == Some((issue_text::MISSING_INDIUM_TITLE@, issue_text::MISSING_INDIUM_DESCRIPTION@)),
        issue_text(Issue::Java32BitMemoryLimit, recommended) == Some((issue_text::JAVA32_BIT_MEMORY_LIMIT_TITLE@, issue_text::JAVA32_BIT_MEMORY_LIMIT_DESCRIPTION@)),
        issue_text(Issue::WrongIntermediaryMappingsVersion, recommended) == Some((issue_text::WRONG_INTERMEDIARY_MAPPINGS_VERSION_TITLE@, issue_text::WRONG_INTERMEDIARY_MAPPINGS_VERSION_DESCRIPTION@)),
        issue_text(Issue::NewJavaOldForgeIgnoreCerts, recommended) == Some((issue_text::NEW_JAVA_OLD_FORGE_IGNORE_CERTS_TITLE@, issue_text::NEW_JAVA_OLD_FORGE_IGNORE_CERTS_DESCRIPTION@)),
        issue_text(Issue::ChecksumMismatch, recommended) == Some((issue_text::CHECKSUM_MISMATCH_TITLE@, issue_text::CHECKSUM_MISMATCH_DESCRIPTION@)),
        issue_text(Issue::NvidiaLinux, recommended) == Some((issue_text::NVIDIA_LINUX_TITLE@, issue_text::NVIDIA_LINUX_DESCRIPTION@)),
        issue_text(Issue::LinuxOpenal, recommended) == Some((issue_text::LINUX_OPENAL_TITLE@, issue_text::LINUX_OPENAL_DESCRIPTION@)),
        issue_text(Issue::X11ConnectFailure, recommended) == Some((issue_text::X11_CONNECT_FAILURE_TITLE@, issue_text::X11_CONNECT_FAILURE_DESCRIPTION@)),
        issue_text(Issue::OldJavaMacOs, recommended) == Some((issue_text::OLD_JAVA_MAC_OS_TITLE@, issue_text::OLD_JAVA_MAC_OS_DESCRIPTION@)),
        issue_text(Issue::MissingXrandr, recommended) == Some((issue_text::MISSING_XRANDR_TITLE@, issue_text::MISSING_XRANDR_DESCRIPTION@)),
        issue_text(Issue::InstanceDataCorrupted, recommended) == Some((issue_text::INSTANCE_DATA_CORRUPTED_TITLE@, issue_text::INSTANCE_DATA_CORRUPTED_DESCRIPTION@)),
        issue_text(Issue::InvalidProxy, recommended) == Some((issue_text::INVALID_PROXY_TITLE@, issue_text::INVALID_PROXY_DESCRIPTION@)),
{
}

/// A log in which OptiFine is installed is answered with the OptiFine
/// warning, whatever Java version the log asks for.
pub proof fn law_optifine_warning(recommended: Option<JavaVersion>)
    ensures
        issue_text(Issue::Optifine, recommended) == Some((
            "Potential OptiFine Incompatibilities"@,
            "OptiFine is known to cause problems when paired with other mods. \
				Try to disable OptiFine and see if the issue persists.
				Check `/tag optifine` for more info & some typically more compatible alternatives you can use."@,
        )),
{
}

/// The views of a pair of strings.
pub open spec fn pair_view(p: (String, String)) -> (Seq<char>, Seq<char>) {
    (p.0@, p.1@)
}

/// The view of an optional pair of strings.
pub open spec fn opt_pair_view(p: Option<(String, String)>) -> Option<(Seq<char>, Seq<char>)> {
    match p {
        Some(p) => Some(pair_view(p)),
        None => None,
    }
}

fn text_pair(title: &str, description: &str) -> (r: (String, String))
    ensures
        pair_view(r) == (title@, description@),
{
    (String::from_str(title), String::from_str(description))
}

fn wrong_java_text(recommended: &Option<JavaVersion>, version: &Option<u64>) -> (r: String)
    ensures
        r@ == wrong_java_description(*recommended, *version),
{
    match (recommended, version) {
        (Some(v), _) => {
            let mut r = String::from_str("Please switch to Java version ");
            append_decimal(&mut r, v.major as u128);
            match v.minor {
                Some(m) => {
                    r.append(" ");
                    append_decimal(&mut r, m as u128);
                },
                None => {},
            }
            r.append("\nFor more information, type `/tag java`");
            r
        },
        (_, Some(version)) => {
            let mut r = String::from_str("Please switch to Java version ");
            append_decimal(&mut r, *version as u128);
            r.append("\nFor more information, type `/tag java`");
            r
        },
        (_, _) => {
            let mut r = String::from_str("Please switch to another Java version");
            r.append("\nFor more information, type `/tag java`");
            r
        },
    }
}

/// The title and description the bot posts for `issue`, found in
/// `analyzed_log`; `None` for an issue the bot leaves out.
pub fn format_issue(issue: &Issue, analyzed_log: &AnalyzedLog) -> (r: Option<(String, String)>)
    ensures
        opt_pair_view(r) == issue_text(*issue, analyzed_log.recommended_java_version),
{
    match issue {
        Issue::OutdatedFlatpakNvidiaDriver => Some(text_pair(issue_text::OUTDATED_FLATPAK_NVIDIA_DRIVER_TITLE, issue_text::OUTDATED_FLATPAK_NVIDIA_DRIVER_DESCRIPTION)),
        Issue::FabricInternalAccess => Some(text_pair(issue_text::FABRIC_INTERNAL_ACCESS_TITLE, issue_text::FABRIC_INTERNAL_ACCESS_DESCRIPTION)),
        Issue::LexforgeZlibng => Some(text_pair(issue_text::LEXFORGE_ZLIBNG_TITLE, issue_text::LEXFORGE_ZLIBNG_DESCRIPTION)),
        Issue::ForgeJava => Some(text_pair(issue_text::FORGE_JAVA_TITLE, issue_text::FORGE_JAVA_DESCRIPTION)),
        Issue::IntelHd => Some(text_pair(issue_text::INTEL_HD_TITLE, issue_text::INTEL_HD_DESCRIPTION)),
        Issue::Lwjgl2JavaAbove8 => Some(text_pair(issue_text::LWJGL2_JAVA_ABOVE8_TITLE, issue_text::LWJGL2_JAVA_ABOVE8_DESCRIPTION)),
        Issue::MacOSNSInternal => Some(text_pair(issue_text::MAC_O_S_N_S_INTERNAL_TITLE, issue_text::MAC_O_S_N_S_INTERNAL_DESCRIPTION)),
        Issue::Optifine => Some(text_pair(issue_text::OPTIFINE_TITLE, issue_text::OPTIFINE_DESCRIPTION)),
        Issue::NettyJavaAbove8 => Some(text_pair(issue_text::NETTY_JAVA_ABOVE8_TITLE, issue_text::NETTY_JAVA_ABOVE8_DESCRIPTION)),
        Issue::ForgeMissingDependencies => Some(text_pair(issue_text::FORGE_MISSING_DEPENDENCIES_TITLE, issue_text::FORGE_MISSING_DEPENDENCIES_DESCRIPTION)),
        Issue::NewJavaOldForgeLegacyJavaFixer => Some(text_pair(issue_text::NEW_JAVA_OLD_FORGE_LEGACY_JAVA_FIXER_TITLE, issue_text::NEW_JAVA_OLD_FORGE_LEGACY_JAVA_FIXER_DESCRIPTION)),
        Issue::MissingIndium => Some(text_pair(issue_text::MISSING_INDIUM_TITLE, issue_text::MISSING_INDIUM_DESCRIPTION)),
        Issue::Java32BitMemoryLimit => Some(text_pair(issue_text::JAVA32_BIT_MEMORY_LIMIT_TITLE, issue_text::JAVA32_BIT_MEMORY_LIMIT_DESCRIPTION)),
        Issue::WrongIntermediaryMappingsVersion => Some(text_pair(issue_text::WRONG_INTERMEDIARY_MAPPINGS_VERSION_TITLE, issue_text::WRONG_INTERMEDIARY_MAPPINGS_VERSION_DESCRIPTION)),
        Issue::NewJavaOldForgeIgnoreCerts => Some(text_pair(issue_text::NEW_JAVA_OLD_FORGE_IGNORE_CERTS_TITLE, issue_text::NEW_JAVA_OLD_FORGE_IGNORE_CERTS_DESCRIPTION)),
        Issue::ChecksumMismatch => Some(text_pair(issue_text::CHECKSUM_MISMATCH_TITLE, issue_text::CHECKSUM_MISMATCH_DESCRIPTION)),
        Issue::NvidiaLinux => Some(text_pair(issue_text::NVIDIA_LINUX_TITLE, issue_text::NVIDIA_LINUX_DESCRIPTION)),
        Issue::LinuxOpenal => Some(text_pair(issue_text::LINUX_OPENAL_TITLE, issue_text::LINUX_OPENAL_DESCRIPTION)),
        Issue::X11ConnectFailure => Some(text_pair(issue_text::X11_CONNECT_FAILURE_TITLE, issue_text::X11_CONNECT_FAILURE_DESCRIPTION)),
        Issue::OldJavaMacOs => Some(text_pair(issue_text::OLD_JAVA_MAC_OS_TITLE, issue_text::OLD_JAVA_MAC_OS_DESCRIPTION)),
        Issue::MissingXrandr => Some(text_pair(issue_text::MISSING_XRANDR_TITLE, issue_text::MISSING_XRANDR_DESCRIPTION)),
        Issue::InstanceDataCorrupted => Some(text_pair(issue_text::INSTANCE_DATA_CORRUPTED_TITLE, issue_text::INSTANCE_DATA_CORRUPTED_DESCRIPTION)),
        Issue::InvalidProxy => Some(text_pair(issue_text::INVALID_PROXY_TITLE, issue_text::INVALID_PROXY_DESCRIPTION)),
        Issue::JavaOption(arg) => {
            let a = chars_of(arg.as_str());
            let flag = chars_of(SHENANDOAH_FLAG);
            let title = if chars_eq(&a, &flag) {
                String::from_str(issue_text::SHENANDOAH_TITLE)
            } else {
                String::from_str(issue_text::WRONG_JAVA_ARGUMENTS_TITLE)
            };
            let mut description = String::from_str("Remove `");
            description.append(arg.as_str());
            description.append("` from your Java arguments");
            Some((title, description))
        },
        Issue::OutdatedLauncher => None,
        Issue::WrongJava(version) => {
            let description = wrong_java_text(&analyzed_log.recommended_java_version, version);
            Some((String::from_str(issue_text::WRONG_JAVA_TITLE), description))
        },
        Issue::LockedJars(jars) => {
            let mut title = String::new();
            append_decimal(&mut title, jars.len() as u128);
            title.append(" Locked Jars");
            Some((title, String::from_str(issue_text::LOCKED_JARS_DESCRIPTION)))
        },
        Issue::MissingLibraries(libs) => {
            let mut title = String::new();
            append_decimal(&mut title, libs.len() as u128);
            title.append(" Missing Libraries");
            Some((title, String::from_str(issue_text::MISSING_LIBRARIES_DESCRIPTION)))
        },
        Issue::Formatted(info) => Some((info.title.clone(), info.description.clone())),
    }
}

} // verus!
