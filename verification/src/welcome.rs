//! The welcome channel's layout, read from a JSON file: embeds, role
//! buttons grouped by category, and plain messages.
use vstd::prelude::*;
use vstd::string::StringExecFns;

use crate::embed::{empty_embed, opt_view, AuthorModel, EmbedModel, EmbedSpec};
use crate::text::{append_decimal, chars_of, decimal, parse_hex_i32, parse_signed_chars, starts_with, starts_with_str};

verus! {

/// An embed of the welcome channel; `hex_color` is a hexadecimal `i32`.
#[derive(Debug)]
pub struct WelcomeEmbed {
    pub title: String,
    pub description: Option<String>,
    pub url: Option<String>,
    pub hex_color: Option<String>,
    pub image: Option<String>,
}

/// A role that members can pick with a button.
#[derive(Debug)]
pub struct WelcomeRole {
    pub title: String,
    pub id: u64,
    pub emoji: Option<String>,
}

/// A group of role buttons under a heading.
#[derive(Debug)]
pub struct WelcomeRoleCategory {
    pub title: String,
    pub description: Option<String>,
    pub roles: Vec<WelcomeRole>,
}

/// The whole welcome channel.
#[derive(Debug)]
pub struct WelcomeLayout {
    pub embeds: Vec<WelcomeEmbed>,
    pub messages: Vec<String>,
    pub roles: Vec<WelcomeRoleCategory>,
}

/// A button: its id (the role's), its label and its emoji text.
#[derive(Debug)]
pub struct ButtonSpec {
    pub custom_id: String,
    pub label: String,
    pub emoji: Option<String>,
}

/// A message with text and a row of buttons.
#[derive(Debug)]
pub struct ButtonMessage {
    pub content: String,
    pub buttons: Vec<ButtonSpec>,
}

/// The colour of a welcome embed, when its hexadecimal text reads as an
/// `i32` (the bits of that `i32`).
pub open spec fn welcome_colour(hex: Seq<char>) -> Option<u32> {
    match parse_hex_i32(hex) {
        Some(v) => Some(v as u32),
        None => None,
    }
}

/// The embed a welcome embed becomes: its title, and its description,
/// link, colour and image when set.
pub open spec fn welcome_embed_model(e: WelcomeEmbed) -> EmbedModel {
    EmbedModel {
        title: Some(e.title@),
        description: opt_view(e.description),
        url: opt_view(e.url),
        color: match e.hex_color {
            Some(h) => welcome_colour(h@),
            None => None,
        },
        image: opt_view(e.image),
        ..empty_embed()
    }
}

/// A welcome embed keeps its layout: the title, and the description, link
/// and image exactly when the layout gives them.
pub proof fn law_welcome_embed_keeps_layout(e: WelcomeEmbed)
    ensures
        welcome_embed_model(e).title == Some(e.title@),
        e.image matches Some(i) ==> welcome_embed_model(e).image == Some(i@),
        e.image is None ==> welcome_embed_model(e).image is None,
        e.description matches Some(d) ==> welcome_embed_model(e).description == Some(d@),
        e.description is None ==> welcome_embed_model(e).description is None,
        e.url matches Some(u) ==> welcome_embed_model(e).url == Some(u@),
        e.url is None ==> welcome_embed_model(e).url is None,
        e.hex_color is None ==> welcome_embed_model(e).color is None,
{
}

/// The colour that a hexadecimal text gives, if it reads as an `i32`.
pub fn parse_hex_colour(hex: &str) -> (r: Option<u32>)
    ensures
        r == welcome_colour(hex@),
{
    let chars = chars_of(hex);
    match parse_signed_chars(&chars, 16, i32::MIN as i64, i32::MAX as i64) {
        Some(v) => Some((v as i32) as u32),
        None => None,
    }
}

impl WelcomeEmbed {
    /// The embed this becomes, or `None` when the colour text does not
    /// read as a hexadecimal `i32` (there is no embed for it then).
    pub fn to_embed(&self) -> (r: Option<EmbedSpec>)
        ensures
            r is Some <==> (self.hex_color matches Some(h) ==> welcome_colour(h@) is Some),
            match r {
                Some(e) => e@ == welcome_embed_model(*self),
                None => self.hex_color matches Some(h) && welcome_colour(h@) is None,
            },
    {
        let mut e = EmbedSpec::new().title(self.title.clone());
        match &self.description {
            Some(d) => {
                e = e.description(d.clone());
            },
            None => {},
        }
        match &self.url {
            Some(u) => {
                e = e.url(u.clone());
            },
            None => {},
        }
        match &self.hex_color {
            Some(h) => match parse_hex_colour(h.as_str()) {
                Some(c) => {
                    e = e.color(c);
                },
                None => {
                    return None;
                },
            },
            None => {},
        }
        match &self.image {
            Some(i) => {
                e = e.image(i.clone());
            },
            None => {},
        }
        Some(e)
    }
}

impl WelcomeRole {
    /// The button of this role: the role id as its id, the title as its label.
    pub fn to_button(&self) -> (r: ButtonSpec)
        ensures
            r.custom_id@ == decimal(self.id as nat),
            r.label@ == self.title@,
            opt_view(r.emoji) == opt_view(self.emoji),
    {
        let mut custom_id = String::new();
        append_decimal(&mut custom_id, self.id as u128);
        let emoji = match &self.emoji {
            Some(e) => Some(e.clone()),
            None => None,
        };
        ButtonSpec { custom_id, label: self.title.clone(), emoji }
    }
}

/// The text of a category's message: its title in bold, then its
/// description on the next line, if any.
pub open spec fn category_text(title: Seq<char>, description: Option<Seq<char>>) -> Seq<char> {
    "**"@ + title + "**"@ + match description {
        Some(d) => "\n"@ + d,
        None => Seq::empty(),
    }
}

impl WelcomeRoleCategory {
    /// The message of this category: its text and one button per role, in order.
    pub fn to_message(&self) -> (r: ButtonMessage)
        ensures
            r.content@ == category_text(self.title@, opt_view(self.description)),
            r.buttons@.len() == self.roles@.len(),
            forall|i: int|
                0 <= i < self.roles@.len() ==> (#[trigger] r.buttons@[i]).custom_id@ == decimal(
                    self.roles@[i].id as nat,
                ) && r.buttons@[i].label@ == self.roles@[i].title@ && opt_view(r.buttons@[i].emoji)
                    == opt_view(self.roles@[i].emoji),
    {
        let mut content = String::from_str("**");
        content.append(self.title.as_str());
        content.append("**");
        match &self.description {
            Some(d) => {
                content.append("\n");
                content.append(d.as_str());
            },
            None => {},
        }
        let mut buttons: Vec<ButtonSpec> = Vec::new();
        let mut i: usize = 0;
        while i < self.roles.len()
            invariant
                i <= self.roles.len(),
                buttons@.len() == i,
                forall|k: int|
                    0 <= k < i ==> (#[trigger] buttons@[k]).custom_id@ == decimal(
                        self.roles@[k].id as nat,
                    ) && buttons@[k].label@ == self.roles@[k].title@ && opt_view(buttons@[k].emoji)
                        == opt_view(self.roles@[k].emoji),
            decreases self.roles.len() - i,
        {
            buttons.push(self.roles[i].to_button());
            i += 1;
        }
        ButtonMessage { content, buttons }
    }
}

/// Where the layout comes from, or what to answer instead.
#[derive(Debug, PartialEq, Eq)]
pub enum AttachmentCheck {
    /// The attachment is JSON: read it.
    Json,
    /// The attachment is something else: answer "Invalid file! Please only send json".
    NotJson,
    /// The attachment has no content type: fail with that error.
    NoContentType,
}

/// Checks an attached layout file by its content type, which must begin
/// with `application/json;`.
pub fn check_attachment(content_type: Option<&str>) -> (r: AttachmentCheck)
    ensures
        r == match content_type {
            None => AttachmentCheck::NoContentType,
            Some(ct) => if starts_with(ct@, "application/json;"@) {
                AttachmentCheck::Json
            } else {
                AttachmentCheck::NotJson
            },
        },
{
    match content_type {
        None => AttachmentCheck::NoContentType,
        Some(ct) => {
            let chars = chars_of(ct);
            if starts_with_str(&chars, "application/json;") {
                AttachmentCheck::Json
            } else {
                AttachmentCheck::NotJson
            }
        },
    }
}

pub const NO_WELCOME_CHANNEL: &'static str = "You don't have a welcome channel ID set, so I can't do anything :(";

pub const NO_CONTENT_TYPE: &'static str = "Welcome channel attachment was sent without a content type!";

pub const INVALID_FILE: &'static str = "Invalid file! Please only send json";

pub const NO_SOURCE: &'static str = "A text file or URL must be provided!";

/// The final answer: `Updated <#channel>!`.
pub fn updated_reply(channel_id: u64) -> (r: String)
    ensures
        r@ == "Updated <#"@ + decimal(channel_id as nat) + ">!"@,
{
    let mut r = String::from_str("Updated <#");
    append_decimal(&mut r, channel_id as u128);
    r.append(">!");
    r
}

/// The log entry of `/set_welcome`.
pub fn set_welcome_log_embed(author_tag: String, author_icon: Option<String>) -> (r: EmbedSpec)
    ensures
        r@ == (EmbedModel {
            title: Some("set_welcome command used!"@),
            author: Some(AuthorModel { name: author_tag@, icon_url: opt_view(author_icon) }),
            ..empty_embed()
        }),
{
    EmbedSpec::new().title(String::from_str("set_welcome command used!")).author(author_tag, author_icon)
}

} // verus!
