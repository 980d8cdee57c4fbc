//! rory.cat, pictures of Rory.
use vstd::prelude::*;
use vstd::string::StringExecFns;

use crate::embed::{empty_embed, EmbedModel, EmbedSpec};
use crate::text::{append_decimal, decimal};

verus! {

pub const RORY: &'static str = "https://rory.cat";

pub const PURR: &'static str = "/purr";

/// An answer of rory.cat.
#[derive(Debug)]
pub struct Response {
    pub id: u64,
    pub url: String,
    pub error: Option<String>,
}

/// Where a picture is asked for: a given one by its id, else a random one.
pub fn purr_url(id: Option<u64>) -> (r: String)
    ensures
        r@ == RORY@ + PURR@ + "/"@ + match id {
            Some(i) => decimal(i as nat),
            None => Seq::empty(),
        },
{
    let mut r = String::from_str(RORY);
    r.append(PURR);
    r.append("/");
    match id {
        Some(i) => append_decimal(&mut r, i as u128),
        None => {},
    }
    r
}

/// The reply to `/rory`: the error, or the picture with its id.
pub open spec fn rory_embed_model(resp: Response) -> EmbedModel {
    match resp.error {
        Some(e) => EmbedModel { title: Some("Error!"@), description: Some(e@), ..empty_embed() },
        None => EmbedModel {
            title: Some("Rory :3"@),
            url: Some(resp.url@),
            image: Some(resp.url@),
            footer: Some("ID "@ + decimal(resp.id as nat)),
            ..empty_embed()
        },
    }
}

/// The reply to `/rory`.
pub fn rory_embed(resp: Response) -> (r: EmbedSpec)
    ensures
        r@ == rory_embed_model(resp),
{
    match resp.error {
        Some(e) => EmbedSpec::new().title(String::from_str("Error!")).description(e),
        None => {
            let mut footer = String::from_str("ID ");
            append_decimal(&mut footer, resp.id as u128);
            let url = resp.url;
            EmbedSpec::new().title(String::from_str("Rory :3")).url(url.clone()).image(url).footer(footer)
        },
    }
}

} // verus!
