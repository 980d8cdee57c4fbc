//! The keys and lifetimes of what the bot keeps in its key-value store.
use vstd::prelude::*;
use vstd::string::StringExecFns;

use crate::text::{append_decimal, decimal, lemma_decimal_injective};

verus! {

pub const PK_KEY: &'static str = "pluralkit-v1";

pub const LAUNCHER_VERSION_KEY: &'static str = "launcher-version-v1";

pub const LAUNCHER_STARGAZER_KEY: &'static str = "launcher-stargazer-v1";

/// How long a user is remembered as a PluralKit user: one week, in seconds.
pub const PLURALITY_TTL: u64 = 604800;

/// How long the launcher version is cached: one day, in seconds.
pub const LAUNCHER_VERSION_TTL: u64 = 86400;

/// How long the stargazer count is cached: one hour, in seconds.
pub const STARGAZER_TTL: u64 = 3600;

/// The key that marks `user_id` as a PluralKit user.
pub open spec fn plurality_key_of(user_id: u64) -> Seq<char> {
    PK_KEY@ + ":"@ + decimal(user_id as nat)
}

/// The key that marks `user_id` as a PluralKit user: `pluralkit-v1:<id>`.
pub fn plurality_key(user_id: u64) -> (r: String)
    ensures
        r@ == plurality_key_of(user_id),
{
    let mut k = String::from_str(PK_KEY);
    k.append(":");
    append_decimal(&mut k, user_id as u128);
    k
}

/// Where a member's chattiness is kept.
pub const CHATTINESS_KEY: &'static str = "chattiness-v1";

/// Where the number of messages a member sent today is kept.
pub const DAILY_MESSAGES_KEY: &'static str = "daily-messages-v1";

/// How long a day's message count is kept: one day, in seconds.
pub const DAILY_MESSAGES_TTL: u64 = 86400;

/// The key under `prefix` for `user_id`: `<prefix>:<id>`.
pub open spec fn user_key_of(prefix: Seq<char>, user_id: u64) -> Seq<char> {
    prefix + ":"@ + decimal(user_id as nat)
}

fn user_key(prefix: &str, user_id: u64) -> (r: String)
    ensures
        r@ == user_key_of(prefix@, user_id),
{
    let mut k = String::from_str(prefix);
    k.append(":");
    append_decimal(&mut k, user_id as u128);
    k
}

/// The key of `user_id`'s chattiness: `chattiness-v1:<id>`.
pub fn chattiness_key(user_id: u64) -> (r: String)
    ensures
        r@ == user_key_of(CHATTINESS_KEY@, user_id),
{
    user_key(CHATTINESS_KEY, user_id)
}

/// The key of `user_id`'s message count of the day: `daily-messages-v1:<id>`.
pub fn daily_messages_key(user_id: u64) -> (r: String)
    ensures
        r@ == user_key_of(DAILY_MESSAGES_KEY@, user_id),
{
    user_key(DAILY_MESSAGES_KEY, user_id)
}

/// Distinct users are marked under distinct keys.
pub proof fn law_plurality_keys_distinct(a: u64, b: u64)
    requires
        a != b,
    ensures
        plurality_key_of(a) != plurality_key_of(b),
{
    let prefix = PK_KEY@ + ":"@;
    if plurality_key_of(a) == plurality_key_of(b) {
        assert(decimal(a as nat) =~= plurality_key_of(a).skip(prefix.len() as int));
        assert(decimal(b as nat) =~= plurality_key_of(b).skip(prefix.len() as int));
        lemma_decimal_injective(a as nat, b as nat);
    }
}

} // verus!
