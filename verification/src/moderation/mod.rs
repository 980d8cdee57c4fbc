//! Moderation commands: banning and kicking one or many users, and the
//! support ban.
use vstd::prelude::*;
use vstd::string::StringExecFns;

use crate::text::{append_decimal, chars_of, decimal, split, split_chars, string_of, trim, trim_chars};

pub mod actions;
pub mod support_ban;

verus! {

/// The items of a comma-separated list, each trimmed of white space.
pub open spec fn list_items(list: Seq<char>) -> Seq<Seq<char>> {
    split(list, ',').map_values(|s: Seq<char>| trim(s))
}

/// The items of a comma-separated list, each trimmed of white space.
pub fn split_list(list: &str) -> (r: Vec<String>)
    ensures
        r@.map_values(|s: String| s@) == list_items(list@),
{
    let chars = chars_of(list);
    let pieces = split_chars(&chars, ',');
    let ghost spec_pieces = split(list@, ',');
    let mut r: Vec<String> = Vec::new();
    let mut i: usize = 0;
    while i < pieces.len()
        invariant
            i <= pieces.len(),
            pieces@.len() == spec_pieces.len(),
            forall|k: int| 0 <= k < pieces@.len() ==> #[trigger] pieces@[k]@ == spec_pieces[k],
            r@.map_values(|s: String| s@) == spec_pieces.take(i as int).map_values(|s: Seq<char>| trim(s)),
        decreases pieces.len() - i,
    {
        let t = trim_chars(&pieces[i]);
        let item = string_of(&t);
        let ghost before = r@;
        r.push(item);
        assert(r@.map_values(|s: String| s@) =~= before.map_values(|s: String| s@).push(item@));
        assert(spec_pieces.take(i + 1).map_values(|s: Seq<char>| trim(s)) =~= spec_pieces.take(
            i as int,
        ).map_values(|s: Seq<char>| trim(s)).push(trim(spec_pieces[i as int])));
        i += 1;
    }
    assert(spec_pieces.take(pieces.len() as int) =~= spec_pieces);
    r
}

/// The number of messages days purged when a ban gives none: 0.
pub fn purge_days(purge_messages_days: Option<u8>) -> (r: u8)
    ensures
        r == match purge_messages_days {
            Some(d) => d,
            None => 0u8,
        },
{
    match purge_messages_days {
        Some(d) => d,
        None => 0,
    }
}

/// The reply after a mass ban: `<count> users banned!`.
pub fn mass_ban_reply(count: usize) -> (r: String)
    ensures
        r@ == decimal(count as nat) + " users banned!"@,
{
    let mut r = String::new();
    append_decimal(&mut r, count as u128);
    r.append(" users banned!");
    r
}

/// The reply after a mass kick: `<count> users kicked!`.
pub fn mass_kick_reply(count: usize) -> (r: String)
    ensures
        r@ == decimal(count as nat) + " users kicked!"@,
{
    let mut r = String::new();
    append_decimal(&mut r, count as u128);
    r.append(" users kicked!");
    r
}

/// A mass action acts on one user per comma-separated item.
pub proof fn law_mass_action_item_count(list: Seq<char>)
    ensures
        list_items(list).len() == split(list, ',').len(),
        list_items(list).len() >= 1,
{
    crate::text::lemma_split_nonempty(list, ',');
}

} // verus!
