//! Tags: canned answers sent by `/tag`.
use vstd::prelude::*;
use vstd::string::StringExecFns;

use crate::consts::Colors;
use crate::embed::{empty_embed, opt_view, EmbedField, EmbedModel, EmbedSpec, FieldModel};
use crate::text::{append_decimal, chars_eq, chars_of, decimal};

verus! {

/// Where the tag files are kept.
pub const TAG_DIR: &'static str = "tags";

/// The header of a tag file.
#[derive(Debug)]
pub struct TagFrontmatter {
    pub title: String,
    pub aliases: Option<Vec<String>>,
    pub color: Option<String>,
    pub image: Option<String>,
    pub fields: Option<Vec<EmbedField>>,
}

/// A tag: its text, its id (the file name without `.md`) and its header.
#[derive(Debug)]
pub struct Tag {
    pub content: String,
    pub id: String,
    pub frontmatter: TagFrontmatter,
}

/// The colour value of a colour name: a known colour's value, else 0.
pub open spec fn colour_value(name: Seq<char>) -> u32 {
    match Colors::named(name) {
        Some(c) => c.rgb(),
        None => 0,
    }
}

/// The embed of a tag: its colour and image if set, its fields, its title,
/// and its text as the description.
pub open spec fn tag_embed_model(tag: Tag) -> EmbedModel {
    let fm = tag.frontmatter;
    EmbedModel {
        color: match fm.color {
            Some(c) => Some(colour_value(c@)),
            None => None,
        },
        image: opt_view(fm.image),
        fields: match fm.fields {
            Some(f) => f@.map_values(|x: EmbedField| x@),
            None => Seq::empty(),
        },
        title: Some(fm.title@),
        description: Some(tag.content@),
        ..empty_embed()
    }
}

/// A tag's embed carries every field of the tag's header, in order, and
/// its title, text and image.
pub proof fn law_tag_embed_carries_header(tag: Tag)
    ensures
        match tag.frontmatter.fields {
            Some(f) => tag_embed_model(tag).fields.len() == f@.len() && forall|k: int|
                0 <= k < f@.len() ==> tag_embed_model(tag).fields[k] == (FieldModel {
                    name: (#[trigger] f@[k]).name@,
                    value: f@[k].value@,
                    inline: f@[k].inline,
                }),
            None => tag_embed_model(tag).fields.len() == 0,
        },
        tag_embed_model(tag).title == Some(tag.frontmatter.title@),
        tag_embed_model(tag).description == Some(tag.content@),
        tag.frontmatter.image matches Some(i) ==> tag_embed_model(tag).image == Some(i@),
        tag.frontmatter.image is None ==> tag_embed_model(tag).image is None,
{
}

/// The embed of a tag.
pub fn tag_embed(tag: &Tag) -> (r: EmbedSpec)
    ensures
        r@ == tag_embed_model(*tag),
{
    let fm = &tag.frontmatter;
    let mut e = EmbedSpec::new();
    match &fm.color {
        Some(c) => {
            let value = match Colors::from_lowercase_name(c.as_str()) {
                Some(colour) => colour.value(),
                None => 0,
            };
            e = e.color(value);
        },
        None => {},
    }
    match &fm.image {
        Some(image) => {
            e = e.image(image.clone());
        },
        None => {},
    }
    match &fm.fields {
        Some(fields) => {
            let ghost start = e@;
            let mut i: usize = 0;
            assert(fields@.take(0).map_values(|x: EmbedField| x@) =~= Seq::<FieldModel>::empty());
            assert(e@ =~= (EmbedModel { fields: fields@.take(0).map_values(|x: EmbedField| x@), ..start }));
            while i < fields.len()
                invariant
                    i <= fields.len(),
                    e@ == (EmbedModel { fields: fields@.take(i as int).map_values(|x: EmbedField| x@), ..start }),
                    start.fields == Seq::<FieldModel>::empty(),
                decreases fields.len() - i,
            {
                let f = &fields[i];
                e = e.field(f.name.clone(), f.value.clone(), f.inline);
                assert(fields@.take(i + 1).map_values(|x: EmbedField| x@) =~= fields@.take(
                    i as int,
                ).map_values(|x: EmbedField| x@).push(fields@[i as int]@));
                i += 1;
            }
            assert(fields@.take(fields.len() as int) =~= fields@);
        },
        None => {},
    }
    e = e.title(fm.title.clone());
    e = e.description(tag.content.clone());
    assert(e@.fields =~= tag_embed_model(*tag).fields);
    e
}

/// The tag whose id is `id`, or the error naming it.
pub fn find_tag<'a>(tags: &'a Vec<Tag>, id: &str) -> (r: Result<&'a Tag, String>)
    ensures
        match r {
            Ok(t) => exists|i: int| 0 <= i < tags@.len() && tags@[i] == *t && t.id@ == id@ && forall|j: int|
                0 <= j < i ==> (#[trigger] tags@[j]).id@ != id@,
            Err(e) => e@ == "Tried to get non-existent tag: "@ + id@ && forall|j: int|
                0 <= j < tags@.len() ==> (#[trigger] tags@[j]).id@ != id@,
        },
{
    let key = chars_of(id);
    let mut i: usize = 0;
    while i < tags.len()
        invariant
            i <= tags.len(),
            key@ == id@,
            forall|j: int| 0 <= j < i ==> (#[trigger] tags@[j]).id@ != id@,
        decreases tags.len() - i,
    {
        if chars_eq(&chars_of(tags[i].id.as_str()), &key) {
            return Ok(&tags[i]);
        }
        i += 1;
    }
    let mut e = String::from_str("Tried to get non-existent tag: ");
    e.append(id);
    Err(e)
}

/// The message content that mentions a user: `<@id>`.
pub fn mention(user_id: u64) -> (r: String)
    ensures
        r@ == "<@"@ + decimal(user_id as nat) + ">"@,
{
    let mut m = String::from_str("<@");
    append_decimal(&mut m, user_id as u128);
    m.append(">");
    m
}

/// The list of tags given as `/tag`'s help: each id in backticks,
/// separated by commas.
pub open spec fn tag_list(tags: Seq<Tag>) -> Seq<char>
    decreases tags.len(),
{
    if tags.len() == 0 {
        Seq::empty()
    } else if tags.len() == 1 {
        "`"@ + tags[0].id@ + "`"@
    } else {
        tag_list(tags.drop_last()) + ", "@ + "`"@ + tags.last().id@ + "`"@
    }
}

/// The help of `/tag`: the available tags.
pub fn help(tags: &Vec<Tag>) -> (r: String)
    ensures
        r@ == "Available tags: "@ + tag_list(tags@),
{
    let mut r = String::from_str("Available tags: ");
    let ghost head = r@;
    let mut i: usize = 0;
    while i < tags.len()
        invariant
            i <= tags.len(),
            r@ == head + tag_list(tags@.take(i as int)),
            head == "Available tags: "@,
        decreases tags.len() - i,
    {
        assert(tags@.take(i + 1).drop_last() =~= tags@.take(i as int));
        if i > 0 {
            r.append(", ");
        }
        r.append("`");
        r.append(tags[i].id.as_str());
        r.append("`");
        proof {
            if i == 0 {
                assert(r@ =~= head + tag_list(tags@.take(1)));
            } else {
                assert(r@ =~= head + (tag_list(tags@.take(i as int)) + ", "@ + "`"@ + tags@[i as int].id@ + "`"@));
            }
        }
        i += 1;
    }
    assert(tags@.take(tags.len() as int) =~= tags@);
    r
}

} // verus!
