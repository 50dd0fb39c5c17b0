//! Updating one field of the target document.
//!
//! The target document must be a JSON object at its root. One key is set to
//! the queried IP as a JSON string; every other entry survives unchanged.
//! These functions work on document text and return the new text: the caller
//! reads the file before and writes it after, so nothing is written when the
//! update fails.

use vstd::prelude::*;
use crate::errors::RunError;
use crate::jsonio::{
    doc_entries, object_text, string_value, empty_object, is_object, parse_value,
    set_string_field, to_pretty,
};

verus! {

/// The entries of the document after setting `key` to the JSON string `ip`:
/// no value when the text is not a JSON object, else the old entries with
/// the one key replaced.
pub open spec fn updated_entries(raw: Seq<char>, key: Seq<char>, ip: Seq<char>) -> Option<
    Map<Seq<char>, serde_json::Value>,
> {
    match doc_entries(raw) {
        Some(m) => Some(m.insert(key, string_value(ip))),
        None => None,
    }
}

/// Sets `key` to the JSON string `ip` in the document text `raw` and returns
/// the new text, pretty-printed. Fails, and returns no text to write, exactly
/// when `raw` is not valid JSON or its root is not an object. The returned
/// text is again a JSON object, with exactly the updated entries, so running
/// the same update on it succeeds and changes nothing further.
pub fn update_document(raw: &str, key: &str, ip: &str) -> (r: Result<String, RunError>)
    ensures
        match r {
            Ok(out) => {
                &&& updated_entries(raw@, key@, ip@) matches Some(m) && out@ == object_text(m)
                &&& doc_entries(out@) == updated_entries(raw@, key@, ip@)
                &&& updated_entries(out@, key@, ip@) == updated_entries(raw@, key@, ip@)
            },
            Err(e) => e == RunError::InvalidTargetJson,
        },
        r is Err <==> doc_entries(raw@) is None,
{
    match parse_value(raw) {
        None => Err(RunError::InvalidTargetJson),
        Some(mut v) => {
            if is_object(&v) {
                set_string_field(&mut v, key, ip);
                let out = to_pretty(&v);
                proof {
                    let m0 = doc_entries(raw@)->0;
                    assert(m0.insert(key@, string_value(ip@)).insert(key@, string_value(ip@))
                        =~= m0.insert(key@, string_value(ip@)));
                }
                Ok(out)
            } else {
                Err(RunError::InvalidTargetJson)
            }
        },
    }
}

/// The text a fresh target file starts with: a JSON object with no entries.
pub fn empty_document() -> (s: String)
    ensures
        s@ == object_text(Map::<Seq<char>, serde_json::Value>::empty()),
        doc_entries(s@) == Some(Map::<Seq<char>, serde_json::Value>::empty()),
{
    let v = empty_object();
    to_pretty(&v)
}

/// Updating one field touches nothing else: the updated document holds `ip`
/// under `key`, holds every other key exactly as the old document did, and
/// holds no key the old document did not.
pub proof fn lemma_update_preserves_siblings(raw: Seq<char>, key: Seq<char>, ip: Seq<char>)
    requires
        doc_entries(raw) is Some,
    ensures
        updated_entries(raw, key, ip) is Some,
        updated_entries(raw, key, ip)->0[key] == string_value(ip),
        updated_entries(raw, key, ip)->0.contains_key(key),
        forall|k: Seq<char>|
            k != key ==> (updated_entries(raw, key, ip)->0.contains_key(k) <==> doc_entries(
                raw,
            )->0.contains_key(k)),
        forall|k: Seq<char>|
            k != key && doc_entries(raw)->0.contains_key(k) ==> updated_entries(raw, key, ip)->0[k]
                == doc_entries(raw)->0[k],
{
}

/// A document that starts as the empty object ends with the one entry the
/// update put there: `key` mapped to the JSON string `ip`, and nothing else.
pub proof fn lemma_update_fresh_document(raw: Seq<char>, key: Seq<char>, ip: Seq<char>)
    requires
        doc_entries(raw) == Some(Map::<Seq<char>, serde_json::Value>::empty()),
    ensures
        updated_entries(raw, key, ip) == Some(
            map![key => string_value(ip)],
        ),
{
    assert(Map::<Seq<char>, serde_json::Value>::empty().insert(key, string_value(ip))
        =~= map![key => string_value(ip)]);
}

} // verus!
