//! A plain description of the embeds and messages the bot sends; the
//! Discord client turns it into its own builders.
use vstd::prelude::*;

verus! {

/// One field of an embed.
#[derive(Debug)]
pub struct EmbedField {
    pub name: String,
    pub value: String,
    pub inline: bool,
}

/// The author line of an embed.
#[derive(Debug)]
pub struct EmbedAuthor {
    pub name: String,
    pub icon_url: Option<String>,
}

/// An embed: every part is optional, fields come in order.
#[derive(Debug)]
pub struct EmbedSpec {
    pub title: Option<String>,
    pub description: Option<String>,
    pub url: Option<String>,
    pub color: Option<u32>,
    pub image: Option<String>,
    pub footer: Option<String>,
    pub author: Option<EmbedAuthor>,
    pub fields: Vec<EmbedField>,
}

/// The mathematical value of an embed field.
pub ghost struct FieldModel {
    pub name: Seq<char>,
    pub value: Seq<char>,
    pub inline: bool,
}

/// The mathematical value of an embed author.
pub ghost struct AuthorModel {
    pub name: Seq<char>,
    pub icon_url: Option<Seq<char>>,
}

/// The mathematical value of an embed.
pub ghost struct EmbedModel {
    pub title: Option<Seq<char>>,
    pub description: Option<Seq<char>>,
    pub url: Option<Seq<char>>,
    pub color: Option<u32>,
    pub image: Option<Seq<char>>,
    pub footer: Option<Seq<char>>,
    pub author: Option<AuthorModel>,
    pub fields: Seq<FieldModel>,
}

/// The view of an optional string.
pub open spec fn opt_view(s: Option<String>) -> Option<Seq<char>> {
    match s {
        Some(s) => Some(s@),
        None => None,
    }
}

impl View for EmbedField {
    type V = FieldModel;

    open spec fn view(&self) -> FieldModel {
        FieldModel { name: self.name@, value: self.value@, inline: self.inline }
    }
}

impl View for EmbedAuthor {
    type V = AuthorModel;

    open spec fn view(&self) -> AuthorModel {
        AuthorModel { name: self.name@, icon_url: opt_view(self.icon_url) }
    }
}

impl View for EmbedSpec {
    type V = EmbedModel;

    open spec fn view(&self) -> EmbedModel {
        EmbedModel {
            title: opt_view(self.title),
            description: opt_view(self.description),
            url: opt_view(self.url),
            color: self.color,
            image: opt_view(self.image),
            footer: opt_view(self.footer),
            author: match self.author {
                Some(a) => Some(a@),
                None => None,
            },
            fields: self.fields@.map_values(|f: EmbedField| f@),
        }
    }
}

/// An embed with nothing set.
pub open spec fn empty_embed() -> EmbedModel {
    EmbedModel {
        title: None,
        description: None,
        url: None,
        color: None,
        image: None,
        footer: None,
        author: None,
        fields: Seq::empty(),
    }
}

impl EmbedSpec {
    /// An embed with nothing set.
    pub fn new() -> (r: Self)
        ensures
            r@ == empty_embed(),
    {
        let r = EmbedSpec {
            title: None,
            description: None,
            url: None,
            color: None,
            image: None,
            footer: None,
            author: None,
            fields: Vec::new(),
        };
        assert(r@.fields =~= Seq::<FieldModel>::empty());
        r
    }

    /// Sets the title.
    pub fn title(self, title: String) -> (r: Self)
        ensures
            r@ == (EmbedModel { title: Some(title@), ..self@ }),
    {
        EmbedSpec { title: Some(title), ..self }
    }

    /// Sets the description.
    pub fn description(self, description: String) -> (r: Self)
        ensures
            r@ == (EmbedModel { description: Some(description@), ..self@ }),
    {
        EmbedSpec { description: Some(description), ..self }
    }

    /// Sets the link of the title.
    pub fn url(self, url: String) -> (r: Self)
        ensures
            r@ == (EmbedModel { url: Some(url@), ..self@ }),
    {
        EmbedSpec { url: Some(url), ..self }
    }

    /// Sets the colour.
    pub fn color(self, color: u32) -> (r: Self)
        ensures
            r@ == (EmbedModel { color: Some(color), ..self@ }),
    {
        EmbedSpec { color: Some(color), ..self }
    }

    /// Sets the image.
    pub fn image(self, image: String) -> (r: Self)
        ensures
            r@ == (EmbedModel { image: Some(image@), ..self@ }),
    {
        EmbedSpec { image: Some(image), ..self }
    }

    /// Sets the footer text.
    pub fn footer(self, footer: String) -> (r: Self)
        ensures
            r@ == (EmbedModel { footer: Some(footer@), ..self@ }),
    {
        EmbedSpec { footer: Some(footer), ..self }
    }

    /// Sets the author line.
    pub fn author(self, name: String, icon_url: Option<String>) -> (r: Self)
        ensures
            r@ == (EmbedModel {
                author: Some(AuthorModel { name: name@, icon_url: opt_view(icon_url) }),
                ..self@
            }),
    {
        EmbedSpec { author: Some(EmbedAuthor { name, icon_url }), ..self }
    }

    /// Adds a field after the others.
    pub fn field(self, name: String, value: String, inline: bool) -> (r: Self)
        ensures
            r@ == (EmbedModel {
                fields: self@.fields.push(FieldModel { name: name@, value: value@, inline }),
                ..self@
            }),
    {
        let mut fields = self.fields;
        let ghost old_fields = fields@;
        let f = EmbedField { name, value, inline };
        fields.push(f);
        assert(fields@.map_values(|f: EmbedField| f@) =~= old_fields.map_values(|f: EmbedField| f@).push(f@));
        EmbedSpec { fields, ..self }
    }
}

} // verus!
