use refraction::launcher_version::{launcher_version_of, outdated_launcher, versions_comparable};
use refraction::text::{chars_of, decimal_chars, parse_signed_chars, parse_unsigned_chars, split_chars, string_of, trim_chars};
use refraction::utils::semver_split;

fn s(v: &[char]) -> String {
    v.iter().collect()
}

#[test]
fn semver_split_reads_numbers() {
    assert_eq!(semver_split("8.2.1"), vec![8, 2, 1]);
    assert_eq!(semver_split("10.0"), vec![10, 0]);
}

#[test]
fn semver_split_drops_non_numbers() {
    assert_eq!(semver_split("1.x.3"), vec![1, 3]);
    assert_eq!(semver_split("+5.-1"), vec![5]);
    assert_eq!(semver_split("99999999999.1"), vec![1]);
    assert_eq!(semver_split(""), Vec::<u32>::new());
    assert_eq!(semver_split("1..2."), vec![1, 2]);
    assert_eq!(semver_split("4294967295.4294967296"), vec![4294967295]);
}

#[test]
fn semver_split_agrees_with_std_parsing() {
    for v in ["1.2.3", "a.b", "+1.+", "007.8", " 1.2", "1 .2", "٣.1", "-0.0"] {
        let expected: Vec<u32> = v.split('.').filter_map(|p| p.parse().ok()).collect();
        assert_eq!(semver_split(v), expected, "for {v:?}");
    }
}

#[test]
fn integer_parsing_follows_from_str_radix() {
    let p = |t: &str| parse_unsigned_chars(&chars_of(t), 10, u64::MAX);
    assert_eq!(p("123"), Some(123));
    assert_eq!(p("+7"), Some(7));
    assert_eq!(p("+"), None);
    assert_eq!(p(""), None);
    assert_eq!(p("-1"), None);
    assert_eq!(p("18446744073709551615"), Some(u64::MAX));
    assert_eq!(p("18446744073709551616"), None);
    let q = |t: &str| parse_signed_chars(&chars_of(t), 16, i32::MIN as i64, i32::MAX as i64);
    assert_eq!(q("ff"), Some(255));
    assert_eq!(q("-80000000"), Some(i32::MIN as i64));
    assert_eq!(q("80000000"), None);
    assert_eq!(q("-"), None);
    assert_eq!(q("FfA0"), Some(0xFFA0));
}

#[test]
fn decimal_formatting() {
    assert_eq!(s(&decimal_chars(0)), "0");
    assert_eq!(s(&decimal_chars(1234567890)), "1234567890");
    assert_eq!(s(&decimal_chars(u128::MAX)), u128::MAX.to_string());
}

#[test]
fn trim_and_split() {
    assert_eq!(s(&trim_chars(&chars_of("\u{3000} a b \n"))), "a b");
    assert_eq!(s(&trim_chars(&chars_of("   "))), "");
    let pieces: Vec<String> = split_chars(&chars_of("a,,b,"), ',').iter().map(|p| s(p)).collect();
    assert_eq!(pieces, vec!["a", "", "b", ""]);
    assert_eq!(string_of(&chars_of("héllo")), "héllo");
}

#[test]
fn launcher_version_is_found() {
    let log = "Prism Launcher version: 8.2.1 (official)\nQt 6";
    assert_eq!(launcher_version_of(log).as_deref(), Some("8.2.1"));
    assert_eq!(launcher_version_of("Prism Launcher version: 9.1\n").as_deref(), Some("9.1"));
    assert_eq!(launcher_version_of("Prism Launcher version: 1.2.x").as_deref(), Some("1.2"));
    assert_eq!(launcher_version_of("no version here"), None);
}

#[test]
fn launcher_version_skips_reports_without_version() {
    let log = "Prism Launcher version: abc\nPrism Launcher version: 7.0.0";
    assert_eq!(launcher_version_of(log).as_deref(), Some("7.0.0"));
}

#[test]
fn launcher_version_agrees_with_the_pattern() {
    let re = regex::Regex::new("Prism Launcher version: ((?:([0-9]+)\\.)?([0-9]+)\\.([0-9]+))").unwrap();
    for log in [
        "Prism Launcher version: 8.2.1",
        "xx Prism Launcher version: 10.0.1.5 yy",
        "Prism Launcher version: 1.23",
        "Prism Launcher version: 1.",
        "Prism Launcher version: .1.2 Prism Launcher version: 3.4",
        "Prism Launcher version: 1.2.",
        "Prism Launcher version:  1.2.3",
        "Prism Launcher version: 12345678901234.5.6",
    ] {
        let expected = re.captures(log).map(|c| c[1].to_string());
        assert_eq!(launcher_version_of(log), expected, "for {log:?}");
    }
}

#[test]
fn outdated_launcher_messages() {
    assert_eq!(
        outdated_launcher("7.0.0", "8.2.1"),
        Some((
            "Outdated Prism Launcher".to_string(),
            "Your installed version is 7.0.0, while the newest version is 8.2.1.\nPlease update; for more info see https://prismlauncher.org/download/".to_string()
        ))
    );
    assert_eq!(
        outdated_launcher("8.2.0", "8.2.1"),
        Some((
            "Outdated Prism Launcher".to_string(),
            "Your installed version is 8.2.0, while the newest version is 8.2.1.\nPlease update by pressing the `Update` button in the launcher or using your package manager.".to_string()
        ))
    );
}

#[test]
fn current_or_newer_launcher_is_not_outdated() {
    assert_eq!(outdated_launcher("8.2.1", "8.2.1"), None);
    assert_eq!(outdated_launcher("9.0.0", "8.2.1"), None);
    assert_eq!(outdated_launcher("8.3.0", "8.2.9"), None);
}

#[test]
fn two_part_versions_are_reported() {
    assert!(outdated_launcher("9.1", "9.1.0").is_some());
}

#[test]
fn comparability() {
    assert!(versions_comparable("8.2.1", "8.2.1"));
    assert!(!versions_comparable("8.2.1", "8.2"));
    assert!(versions_comparable("7.2.1", "8"));
    assert!(!versions_comparable("99999999999.99999999999", "1.2.3"));
    assert!(!versions_comparable("8.2.1", ""));
}
