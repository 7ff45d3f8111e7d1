//! JSON objects, kept in `serde_json`'s map.
//!
//! Every exec function in this file is one call into `serde_json`, and
//! states what the call does without proof. The rest of the crate is
//! verified against these statements.

use vstd::prelude::*;

verus! {

/// `serde_json::Value`, of which nothing is looked into.
#[verifier::external_type_specification]
#[verifier::external_body]
pub struct ExJsonValue(serde_json::Value);

/// `serde_json::Map`, known only by what the functions below say of it.
#[verifier::external_type_specification]
#[verifier::external_body]
#[verifier::reject_recursive_types(K)]
#[verifier::reject_recursive_types(V)]
pub struct ExJsonMap<K, V>(serde_json::Map<K, V>);

/// What a JSON object holds, by key: `Some` of the text for a member
/// that is a JSON string, `None` for a member of any other kind.
pub type Members = Map<Seq<char>, Option<Seq<char>>>;

/// A flat object of text members.
pub type Fields = Map<Seq<char>, Seq<char>>;

/// The members of a `serde_json` object.
pub uninterp spec fn object_members(m: serde_json::Map<String, serde_json::Value>) -> Members;

/// The compact JSON text that `serde_json` prints for an object whose
/// members are exactly the given texts. The map keeps its members sorted
/// by key, so the members alone decide the text.
pub uninterp spec fn json_text(fields: Fields) -> Seq<char>;

/// Every member is a JSON string.
pub open spec fn all_text(m: Members) -> bool {
    forall|k: Seq<char>| m.contains_key(k) ==> (#[trigger] m[k]) is Some
}

/// The members' texts, for an object in which every member is a string.
pub open spec fn texts(m: Members) -> Fields {
    Map::new(|k: Seq<char>| m.contains_key(k), |k: Seq<char>| m[k].unwrap())
}

/// `serde_json::Map::new`: the new object has no members.
#[verifier::external_body]
pub(crate) fn new_object() -> (m: serde_json::Map<String, serde_json::Value>)
    ensures
        object_members(m) == Members::empty(),
{
    serde_json::Map::new()
}

/// `serde_json::Map::insert`, given a `Value::String`: afterwards the
/// object holds `text` under `key`, in place of whatever was there, and
/// every other member is as before. The call does not unwind.
#[verifier::external_body]
pub(crate) fn insert_text(
    m: &mut serde_json::Map<String, serde_json::Value>,
    key: String,
    text: String,
)
    ensures
        object_members(*final(m)) == object_members(*old(m)).insert(key@, Some(text@)),
    no_unwind
{
    m.insert(key, serde_json::Value::String(text));
}

/// `serde_json::Map::get`: a copy of the text under `key`, if the object
/// has a member there and that member is a string.
#[verifier::external_body]
pub(crate) fn get_text(
    m: &serde_json::Map<String, serde_json::Value>,
    key: &str,
) -> (r: Option<String>)
    ensures
        r.is_some() == (object_members(*m).contains_key(key@) && object_members(*m)[key@] is Some),
        r.is_some() ==> Some(r.unwrap()@) == object_members(*m)[key@],
{
    match m.get(key) {
        Some(serde_json::Value::String(text)) => Some(text.clone()),
        _ => None,
    }
}

/// `serde_json::Map::len`: the number of members.
#[verifier::external_body]
pub(crate) fn member_count(m: &serde_json::Map<String, serde_json::Value>) -> (n: usize)
    ensures
        n == object_members(*m).dom().len(),
{
    m.len()
}

/// `Clone::clone` of `serde_json::Map`: the copy has the same members.
#[verifier::external_body]
pub(crate) fn copy_object(
    m: &serde_json::Map<String, serde_json::Value>,
) -> (c: serde_json::Map<String, serde_json::Value>)
    ensures
        object_members(c) == object_members(*m),
{
    m.clone()
}

/// `Display` of `serde_json::Value`, on an object: its compact JSON text.
/// Stated for objects of strings only, for which the members' texts decide
/// the text, and for which printing into a string cannot fail.
#[verifier::external_body]
pub(crate) fn object_text(m: &serde_json::Map<String, serde_json::Value>) -> (s: String)
    requires
        all_text(object_members(*m)),
    ensures
        s@ == json_text(texts(object_members(*m))),
{
    serde_json::Value::Object(m.clone()).to_string()
}

} // verus!
