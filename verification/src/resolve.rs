//! The manifest prober: a fixed, ordered table of candidate manifest files,
//! and the resolution rule that the first readable candidate decides the
//! outcome.

use vstd::prelude::*;
use vstd::string::StringExecFns;
use crate::extract::cargo_extract_spec;
use crate::extract::composer_extract_spec;
use crate::extract::extract_cargo_version;
use crate::extract::extract_composer_version;
use crate::extract::extract_gradle_version;
use crate::extract::extract_mix_version;
use crate::extract::extract_package_version;
use crate::extract::extract_poetry_version;
use crate::extract::extract_project_version;
use crate::extract::gradle_extract_spec;
use crate::extract::mix_extract_spec;
use crate::extract::node_extract_spec;
use crate::extract::poetry_extract_spec;
use crate::extract::project_extract_spec;

verus! {

/// How many candidate manifest files are probed.
pub const CANDIDATE_COUNT: usize = 7;

/// What the extractor paired with candidate `i` yields on `text`.
pub open spec fn extract_at_spec(i: int, text: Seq<char>) -> Option<Seq<char>> {
    if i == 0 {
        cargo_extract_spec(text)
    } else if i == 1 {
        node_extract_spec(text)
    } else if i == 2 {
        poetry_extract_spec(text)
    } else if i == 3 {
        composer_extract_spec(text)
    } else if i == 4 {
        gradle_extract_spec(text)
    } else if i == 5 {
        project_extract_spec(text)
    } else if i == 6 {
        mix_extract_spec(text)
    } else {
        None
    }
}

/// Resolution from candidate `i` on: the first candidate whose read
/// succeeded decides the outcome — whether or not its extraction succeeds —
/// and later candidates are never consulted.
pub open spec fn resolve_from_spec(texts: Seq<Option<Seq<char>>>, i: int) -> Option<Seq<char>>
    decreases texts.len() - i,
{
    if i < 0 || i >= texts.len() {
        None
    } else {
        match texts[i] {
            Some(t) => extract_at_spec(i, t),
            None => resolve_from_spec(texts, i + 1),
        }
    }
}

/// The candidate texts as character sequences.
pub open spec fn texts_view(texts: Seq<Option<String>>) -> Seq<Option<Seq<char>>> {
    texts.map_values(
        |o: Option<String>|
            match o {
                Some(s) => Some(s@),
                None => None,
            },
    )
}

/// The resolved version for a directory whose candidate reads are `texts`:
/// entry `i` holds the text of candidate file `i` where its read succeeded.
pub open spec fn resolve_spec(texts: Seq<Option<String>>) -> Option<Seq<char>> {
    resolve_from_spec(texts_view(texts), 0)
}

/// The candidate manifest file names, in probing order.
pub fn manifest_file_names() -> (r: Vec<String>)
    ensures
        r@.len() == CANDIDATE_COUNT,
        r@[0]@ == "Cargo.toml"@,
        r@[1]@ == "package.json"@,
        r@[2]@ == "pyproject.toml"@,
        r@[3]@ == "composer.json"@,
        r@[4]@ == "build.gradle"@,
        r@[5]@ == "Project.toml"@,
        r@[6]@ == "mix.exs"@,
{
    let mut r: Vec<String> = Vec::new();
    r.push(String::from_str("Cargo.toml"));
    r.push(String::from_str("package.json"));
    r.push(String::from_str("pyproject.toml"));
    r.push(String::from_str("composer.json"));
    r.push(String::from_str("build.gradle"));
    r.push(String::from_str("Project.toml"));
    r.push(String::from_str("mix.exs"));
    r
}

fn extract_at(i: usize, text: &str) -> (r: Option<String>)
    requires
        i < CANDIDATE_COUNT,
    ensures
        match r {
            Some(s) => extract_at_spec(i as int, text@) == Some(s@),
            None => extract_at_spec(i as int, text@) is None,
        },
{
    if i == 0 {
        extract_cargo_version(text)
    } else if i == 1 {
        extract_package_version(text)
    } else if i == 2 {
        extract_poetry_version(text)
    } else if i == 3 {
        extract_composer_version(text)
    } else if i == 4 {
        extract_gradle_version(text)
    } else if i == 5 {
        extract_project_version(text)
    } else {
        extract_mix_version(text)
    }
}

/// Resolves the version for a directory. `texts` holds, for each candidate
/// manifest file in probing order, the file's text where it could be read.
/// The first readable candidate decides the result: its extraction's
/// outcome is final, and later candidates are never consulted.
pub fn get_package_version(texts: &Vec<Option<String>>) -> (r: Option<String>)
    requires
        texts@.len() == CANDIDATE_COUNT,
    ensures
        match r {
            Some(s) => resolve_spec(texts@) == Some(s@),
            None => resolve_spec(texts@) is None,
        },
{
    let ghost tv = texts_view(texts@);
    let mut i: usize = 0;
    while i < CANDIDATE_COUNT
        invariant
            i <= CANDIDATE_COUNT,
            texts@.len() == CANDIDATE_COUNT,
            tv == texts_view(texts@),
            tv.len() == CANDIDATE_COUNT,
            resolve_from_spec(tv, 0) == resolve_from_spec(tv, i as int),
        decreases CANDIDATE_COUNT - i,
    {
        let entry: &Option<String> = &texts[i];
        proof {
            assert(tv[i as int] == match texts@[i as int] {
                Some(s) => Some(s@),
                None => None,
            });
        }
        match entry {
            Some(t) => {
                return extract_at(i, t.as_str());
            },
            None => {},
        }
        i += 1;
    }
    None
}

/// The displayable module that a resolved version feeds: the fixed prefix
/// text and the version segment.
pub struct Module {
    pub prefix: String,
    pub version: String,
}

/// Builds the package-version module for a directory whose candidate reads
/// are `texts`: present exactly when a version resolves, carrying the fixed
/// prefix `is ` and the normalized version.
pub fn module(texts: &Vec<Option<String>>) -> (r: Option<Module>)
    requires
        texts@.len() == CANDIDATE_COUNT,
    ensures
        match r {
            Some(m) => resolve_spec(texts@) == Some(m.version@) && m.prefix@ == "is "@,
            None => resolve_spec(texts@) is None,
        },
{
    match get_package_version(texts) {
        Some(v) => Some(Module { prefix: String::from_str("is "), version: v }),
        None => None,
    }
}

} // verus!
