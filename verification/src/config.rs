//! Configuration data for the span extractor.
//!
//! Discovery of configuration directories and reading of the configuration
//! file are left to the embedding binary; this module holds the configuration
//! types themselves and the path arithmetic on already-discovered directories.

use vstd::prelude::*;
use vstd::string::StringExecFns;

verus! {

/// Per-language extractor settings: which grammar library to load, the symbol
/// that yields the grammar, the file extensions served, and the query
/// expressions whose captures are treated as checkable prose.
#[derive(Debug)]
pub struct LanguageSitterConfigNode {
    pub language_library_name: String,
    pub language_fn_name: String,
    pub file_extensions: Vec<String>,
    pub expressions: Vec<String>,
}

/// The whole configuration: one node per language name.  The pairing replaces
/// a map keyed by language; [`config_languages_unique`] is its invariant.
#[derive(Debug)]
pub struct LanguageSitterConfig {
    pub languages: Vec<(String, LanguageSitterConfigNode)>,
}

/// Each language name appears at most once.
pub open spec fn config_languages_unique(languages: Seq<(String, LanguageSitterConfigNode)>) -> bool {
    forall|i: int, j: int|
        0 <= i < j < languages.len() ==> languages[i].0@ != languages[j].0@
}

/// Append `suffix` to every directory, separated by a path separator.
fn join_all(dirs: &Vec<String>, suffix: &str) -> (r: Vec<String>)
    ensures
        r@.len() == dirs@.len(),
        forall|i: int| 0 <= i < r@.len() ==> r@[i]@ == dirs@[i]@ + "/"@ + suffix@,
{
    let mut r: Vec<String> = Vec::new();
    let mut k: usize = 0;
    while k < dirs.len()
        invariant
            k <= dirs@.len(),
            r@.len() == k,
            forall|i: int| 0 <= i < k ==> r@[i]@ == dirs@[i]@ + "/"@ + suffix@,
        decreases dirs@.len() - k,
    {
        let mut d = dirs[k].clone();
        d.append("/");
        d.append(suffix);
        r.push(d);
        k = k + 1;
    }
    r
}

/// The directories, in priority order, in which grammar libraries are looked
/// up: the `runtime/ltlsp_grammars` subdirectory of each configuration
/// directory.
pub fn prioritise_runtime_grammar_dirs(config_dirs: &Vec<String>) -> (r: Vec<String>)
    ensures
        r@.len() == config_dirs@.len(),
        forall|i: int|
            0 <= i < r@.len() ==> r@[i]@ == config_dirs@[i]@ + "/"@ + "runtime/ltlsp_grammars"@,
{
    join_all(config_dirs, "runtime/ltlsp_grammars")
}

/// The candidate locations of the configuration file, in priority order: the
/// `runtime/languages.toml` file under each configuration directory.  The
/// last existing candidate wins; checking existence is the caller's job.
pub fn config_file_candidates(config_dirs: &Vec<String>) -> (r: Vec<String>)
    ensures
        r@.len() == config_dirs@.len(),
        forall|i: int|
            0 <= i < r@.len() ==> r@[i]@ == config_dirs@[i]@ + "/"@ + "runtime/languages.toml"@,
{
    join_all(config_dirs, "runtime/languages.toml")
}

} // verus!
