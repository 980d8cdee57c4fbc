//! The reminder to keep support in the channel rather than in direct
//! messages or calls.
use vstd::prelude::*;
use vstd::string::StringExecFns;

use crate::regex_match::{regex_is_match, regex_matches};

verus! {

/// The pattern of a message that asks for DMs, calls or screen sharing.
pub fn regex() -> (r: &'static str)
    ensures
        r@ == dms_vcs_pattern(),
{
    "(?i)\\b(?:dms|dm|vc|vcs|voice call|screenshare)\\b"
}

/// The pattern of a message that asks for DMs, calls or screen sharing.
pub open spec fn dms_vcs_pattern() -> Seq<char> {
    "(?i)\\b(?:dms|dm|vc|vcs|voice call|screenshare)\\b"@
}

/// The reminder.
pub const MESSAGE: &'static str = "Please try to keep all support conversations here, run `/tag dm` to learn more.";

/// The reminder to send for a message, if it asks for DMs, calls or
/// screen sharing.
pub fn reply_for(content: &str) -> (r: Option<String>)
    ensures
        regex_matches(dms_vcs_pattern(), content@) ==> (r matches Some(m) && m@ == MESSAGE@),
        !regex_matches(dms_vcs_pattern(), content@) ==> r is None,
{
    if regex_is_match(regex(), content) {
        Some(String::from_str(MESSAGE))
    } else {
        None
    }
}

} // verus!
