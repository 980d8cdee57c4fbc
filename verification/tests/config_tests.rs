use refraction::config::discord::{Config, ConfigError, RefractionChannels};
use refraction::config::github::{missing_token_message, GithubConfig};
use refraction::consts::{Colors, BLUE, GREEN, ORANGE, RED, YELLOW};
use std::str::FromStr;

#[test]
fn colours_parse_in_any_case() {
    assert_eq!(Colors::from_str("BLUE"), Ok(Colors::Blue));
    assert_eq!(Colors::from_str("Yellow"), Ok(Colors::Yellow));
    assert_eq!(Colors::from_str("red"), Ok(Colors::Red));
    assert_eq!(Colors::from_str("pink"), Err(()));
    assert_eq!(Colors::from_str(" red"), Err(()));
    assert_eq!(Colors::from_lowercase_name("Red"), None);
}

#[test]
fn colour_values() {
    assert_eq!(Colors::Blue.value(), 0x60A5FA);
    assert_eq!(
        [Colors::Blue, Colors::Green, Colors::Orange, Colors::Red, Colors::Yellow].map(|c| c.value()),
        [BLUE, GREEN, ORANGE, RED, YELLOW]
    );
    assert_eq!(Colors::default(), Colors::Green);
}

#[test]
fn channel_ids() {
    assert_eq!(RefractionChannels::channel_from_value("1234"), Some(1234));
    assert_eq!(RefractionChannels::channel_from_value("0"), None);
    assert_eq!(RefractionChannels::channel_from_value("abc"), None);
    assert_eq!(RefractionChannels::channel_from_value(""), None);
    let c = RefractionChannels::from_values(Some("42"), None);
    assert_eq!(c.log_channel_id, Some(42));
    assert_eq!(c.welcome_channel_id, None);
}

#[test]
fn days_setting() {
    let channels = RefractionChannels::new(None, Some(7));
    let c = Config::from_values(channels, Some("-3")).unwrap();
    assert_eq!(c.days_to_delete_reaction, -3);
    assert_eq!(c.channels.welcome_channel_id, Some(7));
    assert_eq!(Config::from_values(channels, None).unwrap_err(), ConfigError::MissingDays);
    assert_eq!(Config::from_values(channels, Some("3d")).unwrap_err(), ConfigError::DaysNotANumber);
    assert_eq!(
        ConfigError::MissingDays.message(),
        "DISCORD_DAYS_TO_DELETE_REACTION is empty! This variable is required."
    );
    assert_eq!(ConfigError::DaysNotANumber.message(), "DISCORD_DAYS_TO_DELETE_REACTION is not a number!");
}

#[test]
fn github_defaults() {
    let g = GithubConfig::default();
    assert_eq!(g.token, "");
    assert_eq!(g.cache_sec, 3600);
    assert_eq!(g.update_cron_job, "0 */10 * * * *");
    let repos: Vec<(&str, &str, &str, &str)> =
        g.repos.iter().map(|r| (r.owner.as_str(), r.repo.as_str(), r.key.as_str(), r.name.as_str())).collect();
    assert_eq!(
        repos,
        vec![
            ("PrismLauncher", "PrismLauncher", "launcher", "Launcher contributor"),
            ("PrismLauncher", "prismlauncher.org", "website", "Web developer"),
            ("PrismLauncher", "Translations", "translations", "Translator"),
        ]
    );
    assert_eq!(GithubConfig::with_token("t0k".to_string()).token, "t0k");
    assert_eq!(missing_token_message(), "Couldn't find GITHUB_TOKEN in environment!");
}
