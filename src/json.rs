//! JSON documents as `serde_json` holds them, with the few operations the
//! library needs on objects, lists and text.
use vstd::prelude::*;

verus! {

#[verifier::external_type_specification]
#[verifier::external_body]
pub struct ExValue(serde_json::Value);

#[verifier::external_type_specification]
#[verifier::external_body]
#[verifier::reject_recursive_types(K)]
#[verifier::reject_recursive_types(V)]
pub struct ExObject<K, V>(serde_json::Map<K, V>);

/// A JSON object: keys in text with a document each.
pub type JsonObject = serde_json::Map<String, serde_json::Value>;

/// What a JSON object holds: each key with its document.
pub uninterp spec fn object_entries(m: JsonObject) -> Map<Seq<char>, serde_json::Value>;

/// The object a document is, if it is one.
pub uninterp spec fn object_of(v: serde_json::Value) -> Option<JsonObject>;

/// The texts of a document that is a list of texts, if it is one.
pub uninterp spec fn text_list_of(v: serde_json::Value) -> Option<Seq<Seq<char>>>;

/// The text a document is, if it is one.
pub uninterp spec fn text_of(v: serde_json::Value) -> Option<Seq<char>>;

/// Relies on `serde_json::Map::new`: the new object is empty.
#[verifier::external_body]
pub(crate) fn new_object() -> (r: JsonObject)
    ensures
        object_entries(r).dom() == Set::<Seq<char>>::empty(),
{
    serde_json::Map::new()
}

/// Relies on `serde_json::Map::get`: the document stored under `key`, if any.
#[verifier::external_body]
pub(crate) fn object_get(m: &JsonObject, key: &str) -> (r: Option<serde_json::Value>)
    ensures
        r.is_some() == object_entries(*m).contains_key(key@),
        r.is_some() ==> r.unwrap() == object_entries(*m)[key@],
{
    m.get(key).cloned()
}

/// Relies on `serde_json::Map::insert`: the key now holds the document, the
/// other keys are untouched.
#[verifier::external_body]
pub(crate) fn object_insert(m: &mut JsonObject, key: String, v: serde_json::Value)
    ensures
        object_entries(*final(m)) == object_entries(*old(m)).insert(key@, v),
{
    m.insert(key, v);
}

/// Relies on `serde_json::Map::keys`: each key of the object once.
#[verifier::external_body]
pub(crate) fn object_keys(m: &JsonObject) -> (r: Vec<String>)
    ensures
        r.deep_view().no_duplicates(),
        r.deep_view().to_set() == object_entries(*m).dom(),
{
    m.keys().cloned().collect()
}

/// Relies on `serde_json::Value::as_object`: the object a document is.
#[verifier::external_body]
pub(crate) fn as_object(v: &serde_json::Value) -> (r: Option<JsonObject>)
    ensures
        r == object_of(*v),
{
    v.as_object().cloned()
}

/// Relies on `serde_json::Value::Object`: the document that is this object.
#[verifier::external_body]
pub(crate) fn object_value(m: JsonObject) -> (r: serde_json::Value)
    ensures
        object_of(r) == Some(m),
        text_of(r).is_none(),
        text_list_of(r).is_none(),
{
    serde_json::Value::Object(m)
}

/// Relies on `serde_json::Value::from` on a list of texts: a list document
/// of those texts in order.
#[verifier::external_body]
pub(crate) fn text_list_value(items: Vec<String>) -> (r: serde_json::Value)
    ensures
        text_list_of(r) == Some(items.deep_view()),
        object_of(r).is_none(),
        text_of(r).is_none(),
{
    serde_json::Value::from(items)
}

/// Relies on `serde_json::Value::String`: the document that is this text.
#[verifier::external_body]
pub(crate) fn text_value(s: String) -> (r: serde_json::Value)
    ensures
        text_of(r) == Some(s@),
        object_of(r).is_none(),
        text_list_of(r).is_none(),
{
    serde_json::Value::String(s)
}

} // verus!
