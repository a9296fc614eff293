//! JSON objects of `serde_json`, as far as a feature's properties need them.

use vstd::prelude::*;

verus! {

/// `serde_json::Value`: any JSON value.
#[verifier::external_type_specification]
#[verifier::external_body]
pub struct ExJsonValue(serde_json::Value);

/// `serde_json::Map`: a JSON object, from names to values.
#[verifier::external_type_specification]
#[verifier::external_body]
#[verifier::reject_recursive_types(K)]
#[verifier::reject_recursive_types(V)]
pub struct ExJsonMap<K, V>(serde_json::Map<K, V>);

/// The names of the members of a JSON object.
pub uninterp spec fn member_names(object: serde_json::Map<String, serde_json::Value>) -> Set<
    Seq<char>,
>;

/// The members of a JSON object whose value is a string, by name.
pub uninterp spec fn text_members(object: serde_json::Map<String, serde_json::Value>) -> Map<
    Seq<char>,
    Seq<char>,
>;

/// `serde_json::Map::new`: an object without members.
#[verifier::external_body]
pub(crate) fn new_object() -> (object: serde_json::Map<String, serde_json::Value>)
    ensures
        member_names(object) == Set::<Seq<char>>::empty(),
        text_members(object).dom() == Set::<Seq<char>>::empty(),
{
    serde_json::Map::new()
}

/// `serde_json::Map::insert`, with a string as the value. The object then
/// has a member of that name with that string, in place of any member that
/// had the name before; its other members stay as they are.
#[verifier::external_body]
pub(crate) fn insert_text(
    object: &mut serde_json::Map<String, serde_json::Value>,
    name: String,
    text: String,
)
    ensures
        member_names(*final(object)) == member_names(*old(object)).insert(name@),
        text_members(*final(object)) == text_members(*old(object)).insert(name@, text@),
{
    object.insert(name, serde_json::Value::String(text));
}

} // verus!
