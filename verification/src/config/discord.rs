//! Discord channel settings and the age after which reactions are removed.
use vstd::prelude::*;
use vstd::string::StringExecFns;

use crate::text::{chars_of, parse_i64, parse_signed_chars, parse_u64, parse_unsigned_chars};

verus! {

/// The channels the bot posts to; a channel id is never 0.
#[derive(Clone, Copy, Debug, Default)]
pub struct RefractionChannels {
    pub log_channel_id: Option<u64>,
    pub welcome_channel_id: Option<u64>,
}

/// The Discord settings.
#[derive(Clone, Copy, Debug, Default)]
pub struct Config {
    pub channels: RefractionChannels,
    pub days_to_delete_reaction: i64,
}

/// The channel id that a setting's text names: a non-zero `u64`
/// (`ChannelId::from_str`).
pub open spec fn channel_id_of(value: Seq<char>) -> Option<u64> {
    match parse_u64(value) {
        Some(v) if v != 0 => Some(v),
        _ => None,
    }
}

/// Why the Discord settings could not be read.
#[derive(Clone, Copy, Debug, PartialEq, Eq)]
pub enum ConfigError {
    /// `DISCORD_DAYS_TO_DELETE_REACTION` is not set.
    MissingDays,
    /// `DISCORD_DAYS_TO_DELETE_REACTION` is not an `i64`.
    DaysNotANumber,
}

impl ConfigError {
    /// The message of the error.
    pub open spec fn text(self) -> Seq<char> {
        match self {
            ConfigError::MissingDays => "DISCORD_DAYS_TO_DELETE_REACTION is empty! This variable is required."@,
            ConfigError::DaysNotANumber => "DISCORD_DAYS_TO_DELETE_REACTION is not a number!"@,
        }
    }

    /// The message of the error.
    pub fn message(&self) -> (r: String)
        ensures
            r@ == self.text(),
    {
        match self {
            ConfigError::MissingDays => String::from_str(
                "DISCORD_DAYS_TO_DELETE_REACTION is empty! This variable is required.",
            ),
            ConfigError::DaysNotANumber => String::from_str(
                "DISCORD_DAYS_TO_DELETE_REACTION is not a number!",
            ),
        }
    }
}

impl RefractionChannels {
    pub fn new(log_channel_id: Option<u64>, welcome_channel_id: Option<u64>) -> (r: Self)
        ensures
            r.log_channel_id == log_channel_id,
            r.welcome_channel_id == welcome_channel_id,
    {
        Self { log_channel_id, welcome_channel_id }
    }

    /// The channels named by the values of `DISCORD_LOG_CHANNEL_ID` and
    /// `DISCORD_WELCOME_CHANNEL_ID` (`None` where unset); a value that is
    /// not a channel id leaves that channel unset.
    pub fn from_values(log: Option<&str>, welcome: Option<&str>) -> (r: Self)
        ensures
            r.log_channel_id == (match log {
                Some(v) => channel_id_of(v@),
                None => None,
            }),
            r.welcome_channel_id == (match welcome {
                Some(v) => channel_id_of(v@),
                None => None,
            }),
    {
        let log_channel_id = match log {
            Some(v) => Self::channel_from_value(v),
            None => None,
        };
        let welcome_channel_id = match welcome {
            Some(v) => Self::channel_from_value(v),
            None => None,
        };
        Self::new(log_channel_id, welcome_channel_id)
    }

    /// The channel id that a setting's text names.
    pub fn channel_from_value(value: &str) -> (r: Option<u64>)
        ensures
            r == channel_id_of(value@),
    {
        let chars = chars_of(value);
        match parse_unsigned_chars(&chars, 10, 0xFFFF_FFFF_FFFF_FFFF) {
            Some(v) => if v != 0 {
                Some(v)
            } else {
                None
            },
            None => None,
        }
    }
}

impl Config {
    pub fn new(channels: RefractionChannels, days_to_delete_reaction: i64) -> (r: Self)
        ensures
            r.channels == channels,
            r.days_to_delete_reaction == days_to_delete_reaction,
    {
        Self { channels, days_to_delete_reaction }
    }

    /// The settings given the channels and the value of
    /// `DISCORD_DAYS_TO_DELETE_REACTION` (`None` where unset).
    pub fn from_values(channels: RefractionChannels, days: Option<&str>) -> (r: Result<Self, ConfigError>)
        ensures
            match days {
                None => r == Err::<Self, ConfigError>(ConfigError::MissingDays),
                Some(d) => match parse_i64(d@) {
                    Some(n) => r matches Ok(c) && c.channels == channels && c.days_to_delete_reaction == n,
                    None => r == Err::<Self, ConfigError>(ConfigError::DaysNotANumber),
                },
            },
    {
        match days {
            None => Err(ConfigError::MissingDays),
            Some(d) => {
                let chars = chars_of(d);
                match parse_signed_chars(&chars, 10, i64::MIN, i64::MAX) {
                    Some(n) => Ok(Self::new(channels, n)),
                    None => Err(ConfigError::DaysNotANumber),
                }
            },
        }
    }
}

} // verus!
