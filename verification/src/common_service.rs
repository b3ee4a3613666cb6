//! Rules shared by the services that take uploads.

use vstd::prelude::*;
use crate::text::text_eq;

verus! {

/// Whether a media type, given by its top-level type and its subtype, is an
/// image of a kind that the service stores.
pub open spec fn is_accepted_image(top: Seq<char>, sub: Seq<char>) -> bool {
    &&& top == "image"@
    &&& (sub == "png"@ || sub == "jpeg"@ || sub == "jpg"@ || sub == "webp"@)
}

/// Decides [`is_accepted_image`]. Both parts are compared as they stand,
/// letter case included.
pub fn validate_image(top: &str, sub: &str) -> (ok: bool)
    ensures
        ok == is_accepted_image(top@, sub@),
{
    if !text_eq(top, "image") {
        return false;
    }
    text_eq(sub, "png") || text_eq(sub, "jpeg") || text_eq(sub, "jpg") || text_eq(sub, "webp")
}

} // verus!
