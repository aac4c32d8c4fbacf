//! The seven format extractors: each maps one manifest format's raw text to
//! the normalized version it declares, or `None`.

use vstd::prelude::*;
use vstd::string::StringExecFns;
use crate::freetext::gradle_find_from;
use crate::freetext::gradle_scan;
use crate::freetext::mix_find_from;
use crate::freetext::mix_scan;
use crate::normalize::format_version;
use crate::normalize::normalize_spec;
use crate::structured::json_bool_at;
use crate::structured::json_str_at;
use crate::structured::lookup_json_bool;
use crate::structured::lookup_json_str;
use crate::structured::lookup_toml_str1;
use crate::structured::lookup_toml_str2;
use crate::structured::lookup_toml_str3;
use crate::structured::toml_str_at1;
use crate::structured::toml_str_at2;
use crate::structured::toml_str_at3;
use crate::text::chars_of;
use crate::text::string_from_chars;

verus! {

/// What the Cargo extractor yields: the normalized `package.version` string
/// of the TOML text, if one is there.
pub open spec fn cargo_extract_spec(text: Seq<char>) -> Option<Seq<char>> {
    match toml_str_at2(text, "package"@, "version"@) {
        Some(raw) => Some(normalize_spec(raw)),
        None => None,
    }
}

/// What the Node extractor yields: the normalized top-level `version`
/// string of the JSON text, suppressed entirely when the package is marked
/// `private` or the version is the literal text `null`.
pub open spec fn node_extract_spec(text: Seq<char>) -> Option<Seq<char>> {
    if json_bool_at(text, "private"@) == Some(true) {
        None
    } else {
        match json_str_at(text, "version"@) {
            Some(raw) => if raw == "null"@ {
                None
            } else {
                Some(normalize_spec(raw))
            },
            None => None,
        }
    }
}

/// What the Poetry extractor yields: the normalized `tool.poetry.version`
/// string of the TOML text, if one is there.
pub open spec fn poetry_extract_spec(text: Seq<char>) -> Option<Seq<char>> {
    match toml_str_at3(text, "tool"@, "poetry"@, "version"@) {
        Some(raw) => Some(normalize_spec(raw)),
        None => None,
    }
}

/// What the Composer extractor yields: the normalized top-level `version`
/// string of the JSON text, suppressed when it is the literal text `null`.
pub open spec fn composer_extract_spec(text: Seq<char>) -> Option<Seq<char>> {
    match json_str_at(text, "version"@) {
        Some(raw) => if raw == "null"@ {
            None
        } else {
            Some(normalize_spec(raw))
        },
        None => None,
    }
}

/// What the Gradle extractor yields: the normalized value of the first bare
/// `version '...'` line of the build script.
pub open spec fn gradle_extract_spec(text: Seq<char>) -> Option<Seq<char>> {
    match gradle_find_from(text, 0) {
        Some(raw) => Some(normalize_spec(raw)),
        None => None,
    }
}

/// What the generic project extractor yields: the normalized top-level
/// `version` string of the TOML text, if one is there.
pub open spec fn project_extract_spec(text: Seq<char>) -> Option<Seq<char>> {
    match toml_str_at1(text, "version"@) {
        Some(raw) => Some(normalize_spec(raw)),
        None => None,
    }
}

/// What the Mix extractor yields: the normalized value of the first
/// `version: "..."` attribute of the project file.
pub open spec fn mix_extract_spec(text: Seq<char>) -> Option<Seq<char>> {
    match mix_find_from(text, 0) {
        Some(raw) => Some(normalize_spec(raw)),
        None => None,
    }
}

/// Extracts the version a Cargo manifest declares.
pub fn extract_cargo_version(text: &str) -> (r: Option<String>)
    ensures
        match r {
            Some(s) => cargo_extract_spec(text@) == Some(s@),
            None => cargo_extract_spec(text@) is None,
        },
{
    match lookup_toml_str2(text, "package", "version") {
        Some(raw) => Some(format_version(raw.as_str())),
        None => None,
    }
}

/// Extracts the version a Node manifest declares, unless suppressed.
pub fn extract_package_version(text: &str) -> (r: Option<String>)
    ensures
        match r {
            Some(s) => node_extract_spec(text@) == Some(s@),
            None => node_extract_spec(text@) is None,
        },
{
    match lookup_json_bool(text, "private") {
        Some(true) => None,
        _ => match lookup_json_str(text, "version") {
            Some(raw) => {
                let null_text = String::from_str("null");
                if raw == null_text {
                    None
                } else {
                    Some(format_version(raw.as_str()))
                }
            },
            None => None,
        },
    }
}

/// Extracts the version a Poetry manifest declares.
pub fn extract_poetry_version(text: &str) -> (r: Option<String>)
    ensures
        match r {
            Some(s) => poetry_extract_spec(text@) == Some(s@),
            None => poetry_extract_spec(text@) is None,
        },
{
    match lookup_toml_str3(text, "tool", "poetry", "version") {
        Some(raw) => Some(format_version(raw.as_str())),
        None => None,
    }
}

/// Extracts the version a Composer manifest declares, unless suppressed.
pub fn extract_composer_version(text: &str) -> (r: Option<String>)
    ensures
        match r {
            Some(s) => composer_extract_spec(text@) == Some(s@),
            None => composer_extract_spec(text@) is None,
        },
{
    match lookup_json_str(text, "version") {
        Some(raw) => {
            let null_text = String::from_str("null");
            if raw == null_text {
                None
            } else {
                Some(format_version(raw.as_str()))
            }
        },
        None => None,
    }
}

/// Extracts the version a Gradle build script declares.
pub fn extract_gradle_version(text: &str) -> (r: Option<String>)
    ensures
        match r {
            Some(s) => gradle_extract_spec(text@) == Some(s@),
            None => gradle_extract_spec(text@) is None,
        },
{
    let cs = chars_of(text);
    match gradle_scan(&cs) {
        Some(v) => {
            let raw = string_from_chars(&v);
            Some(format_version(raw.as_str()))
        },
        None => None,
    }
}

/// Extracts the version a generic project manifest declares.
pub fn extract_project_version(text: &str) -> (r: Option<String>)
    ensures
        match r {
            Some(s) => project_extract_spec(text@) == Some(s@),
            None => project_extract_spec(text@) is None,
        },
{
    match lookup_toml_str1(text, "version") {
        Some(raw) => Some(format_version(raw.as_str())),
        None => None,
    }
}

/// Extracts the version a Mix project file declares.
pub fn extract_mix_version(text: &str) -> (r: Option<String>)
    ensures
        match r {
            Some(s) => mix_extract_spec(text@) == Some(s@),
            None => mix_extract_spec(text@) is None,
        },
{
    let cs = chars_of(text);
    match mix_scan(&cs) {
        Some(v) => {
            let raw = string_from_chars(&v);
            Some(format_version(raw.as_str()))
        },
        None => None,
    }
}

/// Absence of the version field yields no version, in every format.
pub proof fn lemma_missing_version_yields_none(text: Seq<char>)
    ensures
        toml_str_at2(text, "package"@, "version"@) is None ==> cargo_extract_spec(text) is None,
        json_str_at(text, "version"@) is None ==> node_extract_spec(text) is None,
        toml_str_at3(text, "tool"@, "poetry"@, "version"@) is None ==> poetry_extract_spec(text)
            is None,
        json_str_at(text, "version"@) is None ==> composer_extract_spec(text) is None,
        gradle_find_from(text, 0) is None ==> gradle_extract_spec(text) is None,
        toml_str_at1(text, "version"@) is None ==> project_extract_spec(text) is None,
        mix_find_from(text, 0) is None ==> mix_extract_spec(text) is None,
{
}

/// A version field holding the literal text `null` is suppressed in the
/// Node and Composer formats.
pub proof fn lemma_null_version_suppressed(text: Seq<char>)
    ensures
        json_str_at(text, "version"@) == Some("null"@) ==> node_extract_spec(text) is None,
        json_str_at(text, "version"@) == Some("null"@) ==> composer_extract_spec(text) is None,
{
}

/// A Node manifest marked private yields no version, whatever else it
/// declares.
pub proof fn lemma_private_suppressed(text: Seq<char>)
    ensures
        json_bool_at(text, "private"@) == Some(true) ==> node_extract_spec(text) is None,
{
}

} // verus!
