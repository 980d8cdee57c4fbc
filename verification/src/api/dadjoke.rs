//! icanhazdadjoke.com.
use vstd::prelude::*;

verus! {

/// Where jokes are fetched from, as plain text.
pub const DADJOKE: &'static str = "https://icanhazdadjoke.com";

} // verus!
