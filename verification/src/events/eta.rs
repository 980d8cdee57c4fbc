//! The answer to people asking for an ETA.
use vstd::prelude::*;
use vstd::string::StringExecFns;

use crate::regex_match::{regex_is_match, regex_matches};

verus! {

/// The pattern of a message that says "ETA", in any case, as a word.
pub fn regex() -> (r: &'static str)
    ensures
        r@ == eta_pattern(),
{
    "(?i)\\beta\\b"
}

/// The pattern of a message that says "ETA".
pub open spec fn eta_pattern() -> Seq<char> {
    "(?i)\\beta\\b"@
}

/// ETA is looked for as the whole word `eta` under the regex flag `i`,
/// which the regex crate documents as making letters match both upper and
/// lower case; the flag opens the pattern, so it covers all of it.
pub proof fn law_eta_pattern_ignores_case()
    ensures
        eta_pattern() == "(?i)"@ + "\\beta\\b"@,
        eta_pattern().take(4) == "(?i)"@,
{
    reveal_strlit("(?i)\\beta\\b");
    reveal_strlit("(?i)");
    reveal_strlit("\\beta\\b");
    assert(eta_pattern() =~= "(?i)"@ + "\\beta\\b"@);
    assert(eta_pattern().take(4) =~= "(?i)"@);
}

/// The answers, one of which is picked by the time.
pub const MESSAGES: [&'static str; 16] = [
    "Sometime",
    "Some day",
    "Not far",
    "The future",
    "Never",
    "Perhaps tomorrow?",
    "There are no ETAs",
    "No",
    "Nah",
    "Yes",
    "Yas",
    "Next month",
    "Next year",
    "Next week",
    "In Prism Launcher 2.0.0",
    "At the appropriate juncture, in due course, in the fullness of time",
];

/// Whether the message asks for an ETA.
pub fn mentions_eta(content: &str) -> (r: bool)
    ensures
        r == regex_matches(eta_pattern(), content@),
{
    regex_is_match(regex(), content)
}

/// The answer at a moment given in milliseconds since the Unix epoch: the
/// answer at that position modulo their number, and an emoji.
pub fn eta_reply(now_millis: u128) -> (r: String)
    ensures
        r@ == MESSAGES@[(now_millis % 16) as int]@ + " <:pofat:1031701005559144458>"@,
{
    let pos = (now_millis % 16) as usize;
    let mut r = String::from_str(MESSAGES[pos]);
    r.append(" <:pofat:1031701005559144458>");
    r
}

} // verus!
