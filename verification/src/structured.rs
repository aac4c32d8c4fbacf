//! Trusted lookups into the structured manifest formats.
//!
//! TOML and JSON parsing is delegated to the `toml` and `serde_json` crates.
//! Each lookup is deterministic — what it yields is a function of the text
//! and the keys alone — so its result is given a name that the extractors'
//! contracts are stated over.

use vstd::prelude::*;

verus! {

/// The string at top-level key `k` of the TOML document written in `text`:
/// `Some` exactly when the text parses as TOML and holds a string there.
pub uninterp spec fn toml_str_at1(text: Seq<char>, k: Seq<char>) -> Option<Seq<char>>;

/// The string reached from the root of the TOML document written in `text`
/// through keys `k1` then `k2`, if the text parses and a string is there.
pub uninterp spec fn toml_str_at2(text: Seq<char>, k1: Seq<char>, k2: Seq<char>) -> Option<
    Seq<char>,
>;

/// The string reached from the root of the TOML document written in `text`
/// through keys `k1`, `k2`, then `k3`, if the text parses and a string is
/// there.
pub uninterp spec fn toml_str_at3(
    text: Seq<char>,
    k1: Seq<char>,
    k2: Seq<char>,
    k3: Seq<char>,
) -> Option<Seq<char>>;

/// The string at top-level key `k` of the JSON document written in `text`:
/// `Some` exactly when the text parses as JSON and holds a string there.
pub uninterp spec fn json_str_at(text: Seq<char>, k: Seq<char>) -> Option<Seq<char>>;

/// The boolean at top-level key `k` of the JSON document written in `text`:
/// `Some` exactly when the text parses as JSON and holds a boolean there.
pub uninterp spec fn json_bool_at(text: Seq<char>, k: Seq<char>) -> Option<bool>;

/// Relies on `toml::from_str`, `toml::Value::get` and `toml::Value::as_str`:
/// parsing fails or the key is absent or not a string exactly when the
/// lookup is `None`.
#[verifier::external_body]
pub(crate) fn lookup_toml_str1(text: &str, k: &str) -> (r: Option<String>)
    ensures
        match r {
            Some(s) => toml_str_at1(text@, k@) == Some(s@),
            None => toml_str_at1(text@, k@) is None,
        },
{
    let doc: toml::Value = match toml::from_str(text) {
        Ok(d) => d,
        Err(_) => return None,
    };
    doc.get(k).and_then(toml::Value::as_str).map(str::to_string)
}

/// Relies on `toml::from_str`, `toml::Value::get` and `toml::Value::as_str`,
/// walking two keys from the root.
#[verifier::external_body]
pub(crate) fn lookup_toml_str2(text: &str, k1: &str, k2: &str) -> (r: Option<String>)
    ensures
        match r {
            Some(s) => toml_str_at2(text@, k1@, k2@) == Some(s@),
            None => toml_str_at2(text@, k1@, k2@) is None,
        },
{
    let doc: toml::Value = match toml::from_str(text) {
        Ok(d) => d,
        Err(_) => return None,
    };
    doc.get(k1).and_then(|v| v.get(k2)).and_then(toml::Value::as_str).map(str::to_string)
}

/// Relies on `toml::from_str`, `toml::Value::get` and `toml::Value::as_str`,
/// walking three keys from the root.
#[verifier::external_body]
pub(crate) fn lookup_toml_str3(text: &str, k1: &str, k2: &str, k3: &str) -> (r: Option<String>)
    ensures
        match r {
            Some(s) => toml_str_at3(text@, k1@, k2@, k3@) == Some(s@),
            None => toml_str_at3(text@, k1@, k2@, k3@) is None,
        },
{
    let doc: toml::Value = match toml::from_str(text) {
        Ok(d) => d,
        Err(_) => return None,
    };
    doc.get(k1)
        .and_then(|v| v.get(k2))
        .and_then(|v| v.get(k3))
        .and_then(toml::Value::as_str)
        .map(str::to_string)
}

/// Relies on `serde_json::from_str`, `serde_json::Value::get` and
/// `serde_json::Value::as_str`: parsing fails or the key is absent or not a
/// string exactly when the lookup is `None`.
#[verifier::external_body]
pub(crate) fn lookup_json_str(text: &str, k: &str) -> (r: Option<String>)
    ensures
        match r {
            Some(s) => json_str_at(text@, k@) == Some(s@),
            None => json_str_at(text@, k@) is None,
        },
{
    let doc: serde_json::Value = match serde_json::from_str(text) {
        Ok(d) => d,
        Err(_) => return None,
    };
    doc.get(k).and_then(serde_json::Value::as_str).map(str::to_string)
}

/// Relies on `serde_json::from_str`, `serde_json::Value::get` and
/// `serde_json::Value::as_bool`: parsing fails or the key is absent or not
/// a boolean exactly when the lookup is `None`.
#[verifier::external_body]
pub(crate) fn lookup_json_bool(text: &str, k: &str) -> (r: Option<bool>)
    ensures
        match r {
            Some(b) => json_bool_at(text@, k@) == Some(b),
            None => json_bool_at(text@, k@) is None,
        },
{
    let doc: serde_json::Value = match serde_json::from_str(text) {
        Ok(d) => d,
        Err(_) => return None,
    };
    doc.get(k).and_then(serde_json::Value::as_bool)
}

} // verus!
