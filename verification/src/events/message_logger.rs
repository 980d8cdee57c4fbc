//! Logging edits of stored messages.
use vstd::prelude::*;

use crate::text::{chars_eq, chars_of};

verus! {

/// An edit is logged, and the stored copy replaced, when the content changed.
pub fn content_changed(new_content: &str, stored_content: &str) -> (r: bool)
    ensures
        r == (new_content@ != stored_content@),
{
    !chars_eq(&chars_of(new_content), &chars_of(stored_content))
}

} // verus!
