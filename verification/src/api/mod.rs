//! The web services the bot talks to: their addresses and what the bot
//! makes of their answers. The requests themselves are made by the client.
use vstd::prelude::*;
use vstd::string::StringExecFns;

pub mod dadjoke;
pub mod github;
pub mod mclogs;
pub mod paste_gg;
pub mod pluralkit;
pub mod prism_meta;
pub mod rory;

verus! {

/// The `User-Agent` the HTTP client sends: `refraction/` and the package
/// version, or `development` when it is not known.
pub fn user_agent(version: Option<&str>) -> (r: String)
    ensures
        r@ == "refraction/"@ + match version {
            Some(v) => v@,
            None => "development"@,
        },
{
    let mut r = String::from_str("refraction/");
    match version {
        Some(v) => r.append(v),
        None => r.append("development"),
    }
    r
}

} // verus!
