//! JSON objects with text members.

use vstd::prelude::*;

verus! {

/// A parsed JSON text; what is inside is only known through `text_members`.
#[verifier::external_type_specification]
#[verifier::external_body]
pub struct ExValue(serde_json::Value);

/// Why a text is not JSON.
#[verifier::external_type_specification]
#[verifier::external_body]
pub struct ExJsonError(serde_json::Error);

/// The members of the value `v` that are text, by key. A value that is not an object has none.
pub uninterp spec fn text_members(v: serde_json::Value) -> Map<Seq<char>, Seq<char>>;

/// What the text `s` holds when it is read as JSON: its members that are text, by key, and
/// nothing at all where it is not JSON.
pub uninterp spec fn parsed_members(s: Seq<char>) -> Option<Map<Seq<char>, Seq<char>>>;

/// The text of the JSON object with these members.
pub uninterp spec fn object_text(members: Seq<(Seq<char>, Seq<char>)>) -> Seq<char>;

/// The keys and texts of a list of members.
pub open spec fn member_views(members: Seq<(String, String)>) -> Seq<(Seq<char>, Seq<char>)> {
    members.map_values(|m: (String, String)| (m.0@, m.1@))
}

/// The members by key; of two with the same key, the later counts.
pub open spec fn by_key(members: Seq<(Seq<char>, Seq<char>)>) -> Map<Seq<char>, Seq<char>>
    decreases members.len(),
{
    if members.len() == 0 {
        Map::empty()
    } else {
        by_key(members.drop_last()).insert(members.last().0, members.last().1)
    }
}

/// Calls `serde_json::from_str` for a `serde_json::Value`. The contract gives what it reads a
/// name, and claims that this depends on the text alone.
#[verifier::external_body]
pub(crate) fn parse_json(s: &str) -> (r: Result<serde_json::Value, serde_json::Error>)
    ensures
        match r {
            Ok(v) => parsed_members(s@) == Some(text_members(v)),
            Err(_) => parsed_members(s@) is None,
        },
{
    serde_json::from_str::<serde_json::Value>(s)
}

/// How the text `s` is shown when it is read as JSON: what the `Debug` form of its value is.
pub uninterp spec fn shown_json(s: Seq<char>) -> Seq<char>;

/// Calls `serde_json::from_str` for a `serde_json::Value` and formats that with its `Debug` impl.
/// The contract only gives the result a name.
#[verifier::external_body]
pub(crate) fn show_json(s: &str) -> (r: String)
    requires
        parsed_members(s@) is Some,
    ensures
        r@ == shown_json(s@),
{
    match serde_json::from_str::<serde_json::Value>(s) {
        Ok(value) => format!("{:?}", value),
        Err(_) => String::new(),
    }
}

/// Calls `serde_json::Value::get` and `serde_json::Value::as_str`: the member under `key`, where
/// there is one and it is text.
#[verifier::external_body]
pub(crate) fn text_member(v: &serde_json::Value, key: &str) -> (r: Option<String>)
    ensures
        match r {
            Some(member) => text_members(*v).contains_key(key@) && text_members(*v)[key@] == member@,
            None => !text_members(*v).contains_key(key@),
        },
{
    v.get(key).and_then(serde_json::Value::as_str).map(str::to_owned)
}

/// Builds a `serde_json::Value` of an object and calls its `to_string`. The contract names the
/// text, and claims that reading it as JSON gives the members back.
#[verifier::external_body]
pub(crate) fn write_object(members: &Vec<(String, String)>) -> (r: String)
    ensures
        r@ == object_text(member_views(members@)),
        parsed_members(r@) == Some(by_key(member_views(members@))),
{
    let mut object = serde_json::Map::new();
    for member in members.iter() {
        object.insert(member.0.clone(), serde_json::Value::String(member.1.clone()));
    }
    serde_json::Value::Object(object).to_string()
}

} // verus!
