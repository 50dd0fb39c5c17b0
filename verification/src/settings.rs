//! The settings store: the persisted `{out, field, vm}` triple.
//!
//! The triple is kept as a pretty-printed JSON object with exactly those
//! three keys, each a JSON string. These functions turn a `Config` into that
//! text and back; the caller reads and writes the settings file itself.

use vstd::prelude::*;
use crate::errors::RunError;
use crate::jsonio::{
    doc_entries, object_text, string_value, empty_object, get_field, is_object, parse_value,
    set_string_field, to_pretty, value_as_str,
};
use crate::resolve::{Config, ConfigView};

verus! {

/// The entries of the settings object for the triple `c`.
pub open spec fn settings_entries(c: ConfigView) -> Map<Seq<char>, serde_json::Value> {
    Map::<Seq<char>, serde_json::Value>::empty().insert("out"@, string_value(c.out)).insert(
        "field"@,
        string_value(c.field),
    ).insert("vm"@, string_value(c.vm))
}

/// Whether `v` is a JSON string.
pub open spec fn is_string(v: serde_json::Value) -> bool {
    exists|t: Seq<char>| v == string_value(t)
}

/// The content of the JSON string `v`.
pub open spec fn string_of(v: serde_json::Value) -> Seq<char> {
    choose|t: Seq<char>| v == string_value(t)
}

/// The triple a settings text denotes: no value unless the text is a JSON
/// object holding a JSON string under each of `out`, `field` and `vm`.
/// Further keys are ignored.
pub open spec fn spec_settings_of(raw: Seq<char>) -> Option<ConfigView> {
    match doc_entries(raw) {
        Some(m) => if m.contains_key("out"@) && is_string(m["out"@]) && m.contains_key("field"@)
            && is_string(m["field"@]) && m.contains_key("vm"@) && is_string(m["vm"@]) {
            Some(ConfigView {
                out: string_of(m["out"@]),
                field: string_of(m["field"@]),
                vm: string_of(m["vm"@]),
            })
        } else {
            None
        },
        None => None,
    }
}

/// The text the settings file is written with: a pretty-printed JSON object
/// holding exactly the triple `c`, whatever the file held before.
pub fn settings_text(c: &Config) -> (s: String)
    ensures
        s@ == object_text(settings_entries(c@)),
        doc_entries(s@) == Some(settings_entries(c@)),
{
    let mut v = empty_object();
    set_string_field(&mut v, "out", c.out.as_str());
    set_string_field(&mut v, "field", c.field.as_str());
    set_string_field(&mut v, "vm", c.vm.as_str());
    to_pretty(&v)
}

/// The settings object holds exactly the stored triple, whatever stood in
/// the file before: its keys are `out`, `field` and `vm` and nothing else,
/// and under each lies the triple's value as a JSON string.
pub proof fn lemma_settings_entries_exact(c: ConfigView)
    ensures
        settings_entries(c).dom() =~= set!["out"@, "field"@, "vm"@],
        settings_entries(c)["out"@] == string_value(c.out),
        settings_entries(c)["field"@] == string_value(c.field),
        settings_entries(c)["vm"@] == string_value(c.vm),
{
    reveal_strlit("out");
    reveal_strlit("field");
    reveal_strlit("vm");
    assert("out"@.len() == 3 && "field"@.len() == 5 && "vm"@.len() == 2);
}

/// Reads the triple back out of a settings text. Fails exactly when the text
/// does not denote a settings triple, as `spec_settings_of` describes.
pub fn parse_settings(raw: &str) -> (r: Result<Config, RunError>)
    ensures
        match r {
            Ok(c) => spec_settings_of(raw@) == Some(c@),
            Err(e) => e == RunError::InvalidSettings,
        },
        r is Err <==> spec_settings_of(raw@) is None,
{
    let v = match parse_value(raw) {
        Some(v) => v,
        None => {
            return Err(RunError::InvalidSettings);
        },
    };
    if !is_object(&v) {
        return Err(RunError::InvalidSettings);
    }
    let out = match get_field(&v, "out") {
        Some(x) => match value_as_str(x) {
            Some(s) => s,
            None => {
                return Err(RunError::InvalidSettings);
            },
        },
        None => {
            return Err(RunError::InvalidSettings);
        },
    };
    let field = match get_field(&v, "field") {
        Some(x) => match value_as_str(x) {
            Some(s) => s,
            None => {
                return Err(RunError::InvalidSettings);
            },
        },
        None => {
            return Err(RunError::InvalidSettings);
        },
    };
    let vm = match get_field(&v, "vm") {
        Some(x) => match value_as_str(x) {
            Some(s) => s,
            None => {
                return Err(RunError::InvalidSettings);
            },
        },
        None => {
            return Err(RunError::InvalidSettings);
        },
    };
    Ok(Config { out, field, vm })
}

} // verus!
