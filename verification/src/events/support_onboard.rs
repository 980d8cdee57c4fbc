//! The greeting posted in new support threads.
use vstd::prelude::*;
use vstd::string::StringExecFns;

use crate::text::{append_decimal, chars_eq, chars_of, decimal};

verus! {

/// Whether a thread is worth looking at: public and without a message yet.
pub fn is_fresh_public_thread(is_public_thread: bool, has_last_message: bool) -> (r: bool)
    ensures
        r == (is_public_thread && !has_last_message),
{
    is_public_thread && !has_last_message
}

/// Whether the parent channel is the support channel.
pub fn is_support_channel(parent_name: &str) -> (r: bool)
    ensures
        r == (parent_name@ == "support"@),
{
    chars_eq(&chars_of(parent_name), &chars_of("support"))
}

/// The greeting for the thread's owner.
pub fn onboarding_message(owner: u64) -> (r: String)
    ensures
        r@ == "<@"@ + decimal(owner as nat) + "> We've received your support ticket! "@
            + "Please upload your logs and post the link here if possible (run `tag log` to find out how)."@
            + " "@ + "Please don't ping people for support questions, unless you have their permission."@,
{
    let mut m = String::from_str("<@");
    append_decimal(&mut m, owner as u128);
    m.append("> We've received your support ticket! ");
    m.append(
        "Please upload your logs and post the link here if possible (run `tag log` to find out how).",
    );
    m.append(" ");
    m.append("Please don't ping people for support questions, unless you have their permission.");
    m
}

/// The error when a thread has no parent channel.
pub fn missing_parent_message(thread_name: &str) -> (r: String)
    ensures
        r@ == "Couldn't get parent ID from thread "@ + thread_name@ + "!"@,
{
    let mut m = String::from_str("Couldn't get parent ID from thread ");
    m.append(thread_name);
    m.append("!");
    m
}

} // verus!
