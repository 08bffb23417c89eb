//! JSON text, written by serde_json.

use vstd::prelude::*;

verus! {

/// The text that serde_json writes for the JSON object built by inserting
/// the given members in order, each a name and a string value.
pub uninterp spec fn json_object_text(members: Seq<(Seq<char>, Seq<char>)>) -> Seq<char>;

/// The members of an object as character sequences.
pub open spec fn members_view(members: Seq<(String, String)>) -> Seq<(Seq<char>, Seq<char>)> {
    members.map_values(|m: (String, String)| (m.0@, m.1@))
}

/// Builds a `serde_json::Map` by inserting each member as a string value, in
/// order, and writes it with `to_string` of `serde_json::Value`. Nothing is
/// proved of it: the contract only gives the text its name,
/// `json_object_text`.
#[verifier::external_body]
pub(crate) fn json_object(members: &Vec<(String, String)>) -> (r: String)
    ensures
        r@ == json_object_text(members_view(members@)),
{
    let mut object = serde_json::Map::new();
    for (name, value) in members.iter() {
        object.insert(name.clone(), serde_json::Value::String(value.clone()));
    }
    serde_json::Value::Object(object).to_string()
}

} // verus!
