//! The trusted boundary around serde_json.
//!
//! The library never parses or prints JSON itself: serde_json does both,
//! behind the wrappers of this module. A document's top-level object is
//! modelled as a `Map` from its keys to the `serde_json::Value` stored under
//! each; the names below stand for what serde_json computes and are given no
//! definition here.

use vstd::prelude::*;

verus! {

#[verifier::external_type_specification]
#[verifier::external_body]
pub struct ExValue(serde_json::Value);

/// The top-level entries of a JSON value: `Some` exactly when the value is
/// an object, and then the map from each key to the value stored under it.
pub uninterp spec fn entries_of(v: serde_json::Value) -> Option<Map<Seq<char>, serde_json::Value>>;

/// The top-level entries of a JSON document text: `Some` exactly when the
/// text parses (per `serde_json::from_str`) and the root is an object.
pub uninterp spec fn doc_entries(s: Seq<char>) -> Option<Map<Seq<char>, serde_json::Value>>;

/// The JSON string whose content is `s` (what `serde_json::Value::String`
/// holds).
pub uninterp spec fn string_value(s: Seq<char>) -> serde_json::Value;

/// What `serde_json::to_string_pretty` prints for the object whose entries
/// are `m`.
pub uninterp spec fn object_text(m: Map<Seq<char>, serde_json::Value>) -> Seq<char>;

/// Relies on `serde_json::from_str::<Value>`: the parse depends on the text
/// alone, and fails exactly when the text is not valid JSON. A failed parse
/// and a non-object root both leave `doc_entries` with no value.
#[verifier::external_body]
pub(crate) fn parse_value(raw: &str) -> (r: Option<serde_json::Value>)
    ensures
        match r {
            Some(v) => doc_entries(raw@) == entries_of(v),
            None => doc_entries(raw@) is None,
        },
{
    match serde_json::from_str::<serde_json::Value>(raw) {
        Ok(v) => Some(v),
        Err(_) => None,
    }
}

/// Relies on `serde_json::Value::is_object`: true exactly on objects.
#[verifier::external_body]
pub(crate) fn is_object(v: &serde_json::Value) -> (r: bool)
    ensures
        r <==> entries_of(*v) is Some,
{
    v.is_object()
}

/// Relies on `serde_json::Map::new`: a fresh object with no entries.
#[verifier::external_body]
pub(crate) fn empty_object() -> (v: serde_json::Value)
    ensures
        entries_of(v) == Some(Map::<Seq<char>, serde_json::Value>::empty()),
{
    serde_json::Value::Object(serde_json::Map::new())
}

/// Relies on `serde_json::Map::insert`: sets `key` to the JSON string whose
/// content is `val`, replacing any previous value at that key and leaving
/// every other entry unchanged.
#[verifier::external_body]
pub(crate) fn set_string_field(v: &mut serde_json::Value, key: &str, val: &str)
    requires
        entries_of(*old(v)) is Some,
    ensures
        entries_of(*final(v)) == Some(entries_of(*old(v))->0.insert(key@, string_value(val@))),
{
    if let serde_json::Value::Object(m) = v {
        m.insert(key.to_string(), serde_json::Value::String(val.to_string()));
    }
}

/// Relies on `serde_json::to_string_pretty::<Value>`: the text depends on
/// the value alone, serializing a `Value` cannot fail, and parsing the
/// printed text back (per `serde_json::from_str`) restores an object with
/// the same entries.
#[verifier::external_body]
pub(crate) fn to_pretty(v: &serde_json::Value) -> (r: String)
    requires
        entries_of(*v) is Some,
    ensures
        r@ == object_text(entries_of(*v)->0),
        doc_entries(r@) == entries_of(*v),
{
    match serde_json::to_string_pretty(v) {
        Ok(s) => s,
        Err(_) => String::new(),
    }
}

/// Relies on `serde_json::Value::get` with a string index: on an object, the
/// entry stored under `key`; `None` when the key is absent or the value is
/// not an object.
#[verifier::external_body]
pub(crate) fn get_field<'a>(v: &'a serde_json::Value, key: &str) -> (r: Option<&'a serde_json::Value>)
    ensures
        match entries_of(*v) {
            Some(m) => match r {
                Some(x) => m.contains_key(key@) && *x == m[key@],
                None => !m.contains_key(key@),
            },
            None => r is None,
        },
{
    v.get(key)
}

/// Relies on `serde_json::Value::as_str`: `Some` exactly on JSON strings,
/// whose content it returns; two JSON strings are the same value exactly
/// when their contents are equal.
#[verifier::external_body]
pub(crate) fn value_as_str(v: &serde_json::Value) -> (r: Option<String>)
    ensures
        match r {
            Some(s) => *v == string_value(s@) && (forall|t: Seq<char>|
                string_value(t) == *v ==> t == s@),
            None => forall|t: Seq<char>| string_value(t) != *v,
        },
{
    match v.as_str() {
        Some(s) => Some(s.to_string()),
        None => None,
    }
}

} // verus!
