//! Quoting a Discord message that another message links to.
use vstd::prelude::*;
use vstd::string::StringExecFns;

use crate::embed::{empty_embed, opt_view, AuthorModel, EmbedModel, EmbedSpec, FieldModel};
use crate::regex_match::{
    captures_view, regex_all_captures, regex_captures, regex_static_captures_len,
    regex_static_group_count,
};
use crate::text::contains;
use crate::utils::{find_attachment, has_content_type_prefix, AttachmentInfo};

verus! {

/// The pattern of a message link.
pub const MESSAGE_PATTERN: &'static str = "/(https?:\\/\\/)?(?:canary\\.|ptb\\.)?discord(?:app)?\\.com\\/channels\\/(?<serverId>\\d+)\\/(?<channelId>\\d+)\\/(?<messageId>\\d+)/g;";

/// A match of a link pattern splits into its whole text and exactly three
/// groups only where the pattern's match always has four groups (the whole
/// match included) and this match has all four.
pub open spec fn splits_into_link(row: Seq<Option<Seq<char>>>) -> bool {
    row.len() == 4 && forall|k: int| 0 <= k < 4 ==> (#[trigger] row[k]) is Some
}

/// A link read from a match: its whole text, the channel and the message id
/// (the third group, the server id, is not used).
pub open spec fn link_of(row: Seq<Option<Seq<char>>>) -> (Seq<char>, Seq<char>, Seq<char>) {
    (row[0]->0, row[2]->0, row[3]->0)
}

/// The links in a message, read from the matches `rows` of a pattern whose
/// number of groups per match is `static_len`: none without a match;
/// otherwise one per match where every match splits into a link, and
/// nothing at all (`None`) where one does not.
pub open spec fn links_from(rows: Seq<Seq<Option<Seq<char>>>>, static_len: Option<usize>) -> Option<Seq<(Seq<char>, Seq<char>, Seq<char>)>> {
    if rows.len() == 0 {
        Some(Seq::empty())
    } else if static_len == Some(4usize) && forall|i: int| 0 <= i < rows.len() ==> splits_into_link(#[trigger] rows[i]) {
        Some(rows.map_values(|row: Seq<Option<Seq<char>>>| link_of(row)))
    } else {
        None
    }
}

/// The views of a list of links.
pub open spec fn links_view(v: Seq<(String, String, String)>) -> Seq<(Seq<char>, Seq<char>, Seq<char>)> {
    v.map_values(|l: (String, String, String)| (l.0@, l.1@, l.2@))
}

/// The message links in `content`, as (link, channel id, message id), or
/// `None` when the matches of [`MESSAGE_PATTERN`] cannot be split into
/// exactly a whole text and three groups, which is the case for every
/// match of that pattern since its first group is optional. Each link is a
/// piece of `content`.
pub fn message_links(content: &str) -> (r: Option<Vec<(String, String, String)>>)
    ensures
        match r {
            Some(v) => links_from(
                regex_all_captures(MESSAGE_PATTERN@, content@),
                regex_static_captures_len(MESSAGE_PATTERN@),
            ) == Some(links_view(v@)) && forall|i: int| 0 <= i < v@.len() ==> contains(content@, (#[trigger] v@[i]).0@),
            None => links_from(
                regex_all_captures(MESSAGE_PATTERN@, content@),
                regex_static_captures_len(MESSAGE_PATTERN@),
            ) is None,
        },
{
    let rows = regex_captures(MESSAGE_PATTERN, content);
    let ghost all = captures_view(rows@);
    if rows.len() == 0 {
        assert(links_view(Seq::<(String, String, String)>::empty()) =~= Seq::empty());
        return Some(Vec::new());
    }
    let static_len = regex_static_group_count(MESSAGE_PATTERN);
    if static_len != Some(4usize) {
        return None;
    }
    let mut links: Vec<(String, String, String)> = Vec::new();
    let mut i: usize = 0;
    while i < rows.len()
        invariant
            i <= rows.len(),
            all == captures_view(rows@),
            all == regex_all_captures(MESSAGE_PATTERN@, content@),
            static_len == regex_static_captures_len(MESSAGE_PATTERN@),
            static_len == Some(4usize),
            forall|k: int| 0 <= k < i ==> splits_into_link(#[trigger] all[k]),
            links_view(links@) == all.take(i as int).map_values(|row: Seq<Option<Seq<char>>>| link_of(row)),
            forall|k: int| 0 <= k < links@.len() ==> contains(content@, (#[trigger] links@[k]).0@),
            forall|k: int, j: int|
                0 <= k < rows@.len() && 0 <= j < rows@[k]@.len() && (#[trigger] rows@[k]@[j]) is Some
                    ==> contains(content@, rows@[k]@[j]->0@),
        decreases rows.len() - i,
    {
        let row = &rows[i];
        let ghost rv = all[i as int];
        assert(rv == row@.map_values(|c: Option<String>| opt_view(c)));
        if row.len() != 4 || row[0].is_none() || row[1].is_none() || row[2].is_none()
            || row[3].is_none() {
            proof {
                if row@.len() == 4 {
                    let k: int = if row@[0] is None {
                        0
                    } else if row@[1] is None {
                        1
                    } else if row@[2] is None {
                        2
                    } else {
                        3
                    };
                    assert(rv[k] is None);
                }
                assert(!splits_into_link(rv));
                assert(!splits_into_link(all[i as int]));
            }
            return None;
        }
        let link = match (&row[0], &row[2], &row[3]) {
            (Some(url), Some(channel), Some(message)) => (url.clone(), channel.clone(), message.clone()),
            _ => {
                return None;
            },
        };
        assert(splits_into_link(rv));
        let ghost before = links@;
        links.push(link);
        assert(links_view(links@) =~= links_view(before).push(link_of(rv)));
        assert(all.take(i + 1) =~= all.take(i as int).push(rv));
        assert(all.take(i + 1).map_values(|row: Seq<Option<Seq<char>>>| link_of(row))
            =~= all.take(i as int).map_values(|row: Seq<Option<Seq<char>>>| link_of(row)).push(link_of(rv)));
        assert(rows@[i as int]@[0] is Some);
        i += 1;
    }
    assert(all.take(rows.len() as int) =~= all);
    Some(links)
}

/// The colour of a quote.
pub const BLITZ_BLUE: u32 = 0x6FC6E2;

/// The address of the first image attached to a message.
pub fn find_first_image(attachments: &Vec<AttachmentInfo>) -> (r: Option<String>)
    ensures
        match r {
            Some(url) => exists|i: int|
                0 <= i < attachments@.len() && url@ == attachments@[i].url@ && has_content_type_prefix(
                    attachments@[i],
                    "image/"@,
                ) && forall|j: int|
                    0 <= j < i ==> !has_content_type_prefix(#[trigger] attachments@[j], "image/"@),
            None => forall|j: int|
                0 <= j < attachments@.len() ==> !has_content_type_prefix(
                    #[trigger] attachments@[j],
                    "image/"@,
                ),
        },
{
    match find_attachment(attachments, "image/") {
        Some(i) => Some(attachments[i].url.clone()),
        None => None,
    }
}

/// The field that lists one attachment of the quoted message.
pub open spec fn attachment_field(a: AttachmentInfo) -> FieldModel {
    FieldModel { name: "Attachments"@, value: "["@ + a.filename@ + "]("@ + a.url@ + ")"@, inline: false }
}

/// The quote of a message: its author, colour, channel as footer, its text
/// and a jump link, one field per attachment, and `image` when the quoted
/// message has attachments.
pub open spec fn quote_model(
    author_tag: Seq<char>,
    author_icon: Seq<char>,
    channel_name: Seq<char>,
    content: Seq<char>,
    link: Seq<char>,
    attachments: Seq<AttachmentInfo>,
    image: Option<Seq<char>>,
) -> EmbedModel {
    EmbedModel {
        author: Some(AuthorModel { name: author_tag, icon_url: Some(author_icon) }),
        color: Some(BLITZ_BLUE),
        footer: Some("#"@ + channel_name),
        description: Some(content + "\n\n[Jump to original message]("@ + link + ")"@),
        fields: attachments.map_values(|a: AttachmentInfo| attachment_field(a)),
        image: if attachments.len() > 0 {
            image
        } else {
            None
        },
        ..empty_embed()
    }
}

/// The quote of a message (the client adds its time).
pub fn quote_embed(
    author_tag: String,
    author_icon: String,
    channel_name: &str,
    content: &str,
    link: &str,
    attachments: &Vec<AttachmentInfo>,
    image: Option<String>,
) -> (r: EmbedSpec)
    ensures
        r@ == quote_model(
            author_tag@,
            author_icon@,
            channel_name@,
            content@,
            link@,
            attachments@,
            crate::embed::opt_view(image),
        ),
{
    let mut footer = String::from_str("#");
    footer.append(channel_name);
    let mut description = String::from_str(content);
    description.append("\n\n[Jump to original message](");
    description.append(link);
    description.append(")");
    let mut e = EmbedSpec::new().author(author_tag, Some(author_icon)).color(BLITZ_BLUE).footer(
        footer,
    ).description(description);
    let ghost start = e@;
    let mut i: usize = 0;
    assert(attachments@.take(0).map_values(|a: AttachmentInfo| attachment_field(a)) =~= Seq::<
        FieldModel,
    >::empty());
    while i < attachments.len()
        invariant
            i <= attachments.len(),
            start.fields == Seq::<FieldModel>::empty(),
            e@ == (EmbedModel {
                fields: attachments@.take(i as int).map_values(|a: AttachmentInfo| attachment_field(a)),
                ..start
            }),
        decreases attachments.len() - i,
    {
        let a = &attachments[i];
        let mut value = String::from_str("[");
        value.append(a.filename.as_str());
        value.append("](");
        value.append(a.url.as_str());
        value.append(")");
        e = e.field(String::from_str("Attachments"), value, false);
        assert(attachments@.take(i + 1).map_values(|a: AttachmentInfo| attachment_field(a))
            =~= attachments@.take(i as int).map_values(|a: AttachmentInfo| attachment_field(a)).push(
            attachment_field(attachments@[i as int]),
        ));
        i += 1;
    }
    assert(attachments@.take(attachments.len() as int) =~= attachments@);
    if attachments.len() > 0 {
        match image {
            Some(img) => {
                e = e.image(img);
            },
            None => {},
        }
    }
    e
}

} // verus!
