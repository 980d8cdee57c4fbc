//! Deleting a command's reply when its invoker reacts with ❌.
use vstd::prelude::*;

use crate::text::{chars_eq, chars_of};

verus! {

/// The reply to a command is deleted when the reacting user is the one who
/// ran the command and the reaction is the Unicode emoji ❌ (`unicode`
/// is `None` for a custom emoji).
pub fn should_delete(command_user: Option<u64>, reactor: u64, unicode: Option<&str>) -> (r: bool)
    ensures
        r == (command_user == Some(reactor) && match unicode {
            Some(e) => e@ == "❌"@,
            None => false,
        }),
{
    match command_user {
        Some(u) => {
            if u != reactor {
                return false;
            }
            match unicode {
                Some(e) => chars_eq(&chars_of(e), &chars_of("❌")),
                None => false,
            }
        },
        None => false,
    }
}

} // verus!
