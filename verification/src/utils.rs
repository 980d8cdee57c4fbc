//! Small helpers shared by the commands and event handlers.
use vstd::prelude::*;

use crate::text::{
    chars_of, decimal, digit_char, lemma_decimal_round_trip, lemma_split_nonempty, parse_u32, parse_unsigned_chars, split, split_chars, starts_with, starts_with_str,
};

verus! {

/// The numbers read from `pieces`, in order, skipping the pieces that are
/// not a `u32`.
pub open spec fn parsed_numbers(pieces: Seq<Seq<char>>) -> Seq<u32>
    decreases pieces.len(),
{
    if pieces.len() == 0 {
        Seq::empty()
    } else {
        let rest = parsed_numbers(pieces.drop_last());
        match parse_u32(pieces.last()) {
            Some(v) => rest.push(v),
            None => rest,
        }
    }
}

/// The numeric components of a dotted version: the pieces between dots that
/// read as a `u32`, in order.
pub open spec fn version_numbers(version: Seq<char>) -> Seq<u32> {
    parsed_numbers(split(version, '.'))
}

/// Splits a version such as `8.2.1` into its numbers, dropping every piece
/// between dots that is not a `u32`.
pub fn semver_split(version: &str) -> (r: Vec<u32>)
    ensures
        r@ == version_numbers(version@),
{
    let chars = chars_of(version);
    let pieces = split_chars(&chars, '.');
    let ghost spec_pieces = split(version@, '.');
    let mut r: Vec<u32> = Vec::new();
    let mut i: usize = 0;
    while i < pieces.len()
        invariant
            i <= pieces.len(),
            pieces@.len() == spec_pieces.len(),
            forall|k: int| 0 <= k < pieces@.len() ==> #[trigger] pieces@[k]@ == spec_pieces[k],
            r@ == parsed_numbers(spec_pieces.take(i as int)),
        decreases pieces.len() - i,
    {
        assert(spec_pieces.take(i + 1).drop_last() =~= spec_pieces.take(i as int));
        assert(spec_pieces.take(i + 1).last() == pieces@[i as int]@);
        match parse_unsigned_chars(&pieces[i], 10, 0xFFFF_FFFF) {
            Some(v) => r.push(v as u32),
            None => {},
        }
        i += 1;
    }
    assert(spec_pieces.take(pieces.len() as int) =~= spec_pieces);
    r
}

/// Reading a version never yields more numbers than it has dot-separated pieces.
pub proof fn law_parsed_numbers_len(pieces: Seq<Seq<char>>)
    ensures
        parsed_numbers(pieces).len() <= pieces.len(),
    decreases pieces.len(),
{
    if pieces.len() > 0 {
        law_parsed_numbers_len(pieces.drop_last());
    }
}

/// The numbers of `v` written in decimal and joined by dots, as a version
/// is written.
pub open spec fn dotted(v: Seq<u32>) -> Seq<char>
    decreases v.len(),
{
    if v.len() == 0 {
        Seq::empty()
    } else if v.len() == 1 {
        decimal(v[0] as nat)
    } else {
        dotted(v.drop_last()) + seq!['.'] + decimal(v.last() as nat)
    }
}

proof fn lemma_decimal_has_no_dot(n: nat)
    ensures
        forall|i: int| 0 <= i < decimal(n).len() ==> #[trigger] decimal(n)[i] != '.',
    decreases n,
{
    let c = digit_char(n % 10);
    assert((c as u32) == n % 10 + 48);
    assert(('.' as u32) == 46);
    if n >= 10 {
        lemma_decimal_has_no_dot(n / 10);
        assert forall|i: int| 0 <= i < decimal(n).len() implies #[trigger] decimal(n)[i] != '.' by {
            if i < decimal(n / 10).len() {
                assert(decimal(n)[i] == decimal(n / 10)[i]);
            }
        }
    }
}

proof fn lemma_split_extend(p: Seq<char>, t: Seq<char>, sep: char)
    requires
        forall|i: int| 0 <= i < t.len() ==> #[trigger] t[i] != sep,
    ensures
        split(p + t, sep) == split(p, sep).update(
            split(p, sep).len() - 1,
            split(p, sep).last() + t,
        ),
    decreases t.len(),
{
    lemma_split_nonempty(p, sep);
    if t.len() == 0 {
        assert(p + t =~= p);
        assert(split(p, sep).last() + t =~= split(p, sep).last());
        assert(split(p, sep).update(split(p, sep).len() - 1, split(p, sep).last()) =~= split(p, sep));
    } else {
        let t0 = t.drop_last();
        lemma_split_extend(p, t0, sep);
        assert((p + t).drop_last() =~= p + t0);
        assert((p + t).last() == t.last());
        assert(t.last() == t[t.len() - 1]);
        assert((split(p, sep).last() + t0).push(t.last()) =~= split(p, sep).last() + t);
        assert(split(p + t, sep) =~= split(p, sep).update(
            split(p, sep).len() - 1,
            split(p, sep).last() + t,
        ));
    }
}

proof fn lemma_parse_decimal_u32(n: u32)
    ensures
        parse_u32(decimal(n as nat)) == Some(n),
{
    lemma_decimal_round_trip(n as nat);
}

/// Reading the numbers of a version written from `v` (each in decimal,
/// joined by dots) gives `v` back.
pub proof fn law_version_round_trip(v: Seq<u32>)
    requires
        v.len() >= 1,
    ensures
        version_numbers(dotted(v)) == v,
    decreases v.len(),
{
    let last = decimal(v.last() as nat);
    lemma_decimal_has_no_dot(v.last() as nat);
    lemma_parse_decimal_u32(v.last());
    if v.len() == 1 {
        lemma_split_extend(Seq::empty(), last, '.');
        assert(Seq::<char>::empty() + last =~= last);
        assert(split(Seq::<char>::empty(), '.') =~= seq![Seq::<char>::empty()]);
        assert(split(last, '.') =~= seq![last]) by {
            assert(Seq::<char>::empty() + last =~= last);
        }
        assert(seq![last].drop_last() =~= Seq::<Seq<char>>::empty());
        assert(seq![last].last() == last);
        assert(parsed_numbers(Seq::<Seq<char>>::empty()) == Seq::<u32>::empty());
        assert(v.last() == v[0]);
        assert(parsed_numbers(seq![last]) == Seq::<u32>::empty().push(v[0]));
        assert(parsed_numbers(seq![last]) =~= seq![v[0]]);
        assert(v =~= seq![v[0]]);
    } else {
        let front = v.drop_last();
        law_version_round_trip(front);
        let p = dotted(front) + seq!['.'];
        assert(p.drop_last() =~= dotted(front));
        assert(split(p, '.') == split(dotted(front), '.').push(Seq::empty()));
        lemma_split_extend(p, last, '.');
        assert(Seq::<char>::empty() + last =~= last);
        let pieces = split(dotted(front), '.');
        assert(split(dotted(v), '.') =~= pieces.push(last));
        assert(pieces.push(last).drop_last() =~= pieces);
        assert(parsed_numbers(pieces.push(last)) == parsed_numbers(pieces).push(v.last()));
        assert(front.push(v.last()) =~= v);
    }
}

/// An attachment of a message, as far as the bot reads it.
#[derive(Clone, Debug)]
pub struct AttachmentInfo {
    pub filename: String,
    pub url: String,
    pub content_type: Option<String>,
}

/// The attachment has a content type that begins with `prefix`.
pub open spec fn has_content_type_prefix(a: AttachmentInfo, prefix: Seq<char>) -> bool {
    a.content_type matches Some(ct) && starts_with(ct@, prefix)
}

/// Whether the attachment's content type begins with `prefix`.
pub fn content_type_starts_with(a: &AttachmentInfo, prefix: &str) -> (r: bool)
    ensures
        r == has_content_type_prefix(*a, prefix@),
{
    match &a.content_type {
        Some(ct) => {
            let chars = chars_of(ct.as_str());
            starts_with_str(&chars, prefix)
        },
        None => false,
    }
}

/// The position of the first attachment whose content type begins with `prefix`.
pub fn find_attachment(attachments: &Vec<AttachmentInfo>, prefix: &str) -> (r: Option<usize>)
    ensures
        match r {
            Some(i) => i < attachments@.len() && has_content_type_prefix(attachments@[i as int], prefix@)
                && forall|j: int| 0 <= j < i ==> !has_content_type_prefix(#[trigger] attachments@[j], prefix@),
            None => forall|j: int| 0 <= j < attachments@.len() ==> !has_content_type_prefix(#[trigger] attachments@[j], prefix@),
        },
{
    let mut i: usize = 0;
    while i < attachments.len()
        invariant
            i <= attachments.len(),
            forall|j: int| 0 <= j < i ==> !has_content_type_prefix(#[trigger] attachments@[j], prefix@),
        decreases attachments.len() - i,
    {
        if content_type_starts_with(&attachments[i], prefix) {
            return Some(i);
        }
        i += 1;
    }
    None
}

/// The first attachment of a message whose content type is `text/...`.
pub fn first_text_attachment(attachments: &Vec<AttachmentInfo>) -> (r: Option<&AttachmentInfo>)
    ensures
        match r {
            Some(a) => exists|i: int| 0 <= i < attachments@.len() && *a == attachments@[i]
                && has_content_type_prefix(attachments@[i], "text/"@)
                && forall|j: int| 0 <= j < i ==> !has_content_type_prefix(#[trigger] attachments@[j], "text/"@),
            None => forall|j: int| 0 <= j < attachments@.len() ==> !has_content_type_prefix(#[trigger] attachments@[j], "text/"@),
        },
{
    match find_attachment(attachments, "text/") {
        Some(i) => Some(&attachments[i]),
        None => None,
    }
}

} // verus!
