//! PluralKit, which tells who sent a proxied message.
use vstd::prelude::*;
use vstd::string::StringExecFns;

use crate::text::{append_decimal, chars_of, decimal, parse_u64, parse_unsigned_chars};

verus! {

pub const PLURAL_KIT: &'static str = "https://api.pluralkit.me/v2";

pub const MESSAGES: &'static str = "/messages";

/// PluralKit's record of a message.
#[derive(Debug)]
pub struct Message {
    pub sender: String,
}

/// Where PluralKit's record of message `message_id` is read.
pub fn message_url(message_id: u64) -> (r: String)
    ensures
        r@ == PLURAL_KIT@ + MESSAGES@ + "/"@ + decimal(message_id as nat),
{
    let mut r = String::from_str(PLURAL_KIT);
    r.append(MESSAGES);
    r.append("/");
    append_decimal(&mut r, message_id as u128);
    r
}

/// The user id in the record's `sender`, if it reads as a `u64`.
pub fn sender_id(message: &Message) -> (r: Option<u64>)
    ensures
        r == parse_u64(message.sender@),
{
    let chars = chars_of(message.sender.as_str());
    parse_unsigned_chars(&chars, 10, 0xFFFF_FFFF_FFFF_FFFF)
}

} // verus!
