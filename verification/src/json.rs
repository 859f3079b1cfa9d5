//! JSON string literals.

use vstd::prelude::*;

verus! {

/// The JSON string literal for a string: the string between double quotes,
/// with the characters escaped that JSON does not take as they are.
pub uninterp spec fn json_string_of(s: Seq<char>) -> Seq<char>;

/// `serde_json::to_string` on a string slice: the JSON string literal for it.
/// The call can fail only for a value whose own serialisation fails or that
/// holds a map with keys that are not strings; a string slice is neither.
#[verifier::external_body]
pub(crate) fn json_quote(s: &str) -> (out: String)
    ensures
        out@ == json_string_of(s@),
{
    match serde_json::to_string(s) {
        Ok(text) => text,
        Err(_) => String::new(),
    }
}

/// A member of a JSON object: the key, a colon, and the value, both given
/// as JSON already.
pub open spec fn member(key: Seq<char>, value: Seq<char>) -> Seq<char> {
    key + ":"@ + value
}

/// Writes a member of a JSON object from a key and a value that are JSON already.
pub fn frame_member(key: &str, value: &str) -> (m: String)
    ensures
        m@ == member(key@, value@),
{
    let mut m = crate::text::followed_by(key, ":");
    m.append(value);
    m
}

/// A JSON object: the members between braces, with commas between them.
pub open spec fn object(members: Seq<Seq<char>>) -> Seq<char> {
    "{"@ + crate::text::join_with(members, ","@) + "}"@
}

/// Writes a JSON object from its members.
pub fn frame_object(members: &Vec<String>) -> (o: String)
    ensures
        o@ == object(crate::text::views(members@)),
{
    let mut o = crate::text::followed_by("{", crate::text::join(members, ",").as_str());
    o.append("}");
    o
}

} // verus!
