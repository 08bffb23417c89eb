//! The frame that reports a failure to a connected client.

use crate::json::{json_object, json_object_text, members_view};
use vstd::prelude::*;

verus! {

/// The text of the error frame for the failure `e`: a JSON object with the
/// one member `error`.
pub fn send_error_to_socket(e: &str) -> (r: String)
    ensures
        r@ == json_object_text(seq![("error"@, e@)]),
{
    let mut members: Vec<(String, String)> = Vec::new();
    members.push(("error".to_owned(), e.to_owned()));
    assert(members_view(members@) =~= seq![("error"@, e@)]);
    json_object(&members)
}

} // verus!
