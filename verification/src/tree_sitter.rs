//! The span extractor registry.
//!
//! A grammar engine — loading a grammar library and running queries over a
//! parse tree — is an outside capability: the embedding binary performs it and
//! hands this module the outcome (whether the grammar loaded, and the raw
//! byte-range captures of the queries).  Everything else of the extractor is
//! here and verified: per-language bookkeeping, turning captures into sorted,
//! well-formed spans, and the search-path arithmetic for grammar libraries.

use vstd::prelude::*;
use vstd::string::StringExecFns;

use crate::config::LanguageSitterConfigNode;
use crate::error::LtlspError;

verus! {

/// One extracted span: the prose text and the byte range it occupies in the
/// document it was extracted from.
#[derive(Debug)]
pub struct LanguageSitterResult {
    pub text: Vec<u8>,
    pub start_pos: usize,
    pub end_pos: usize,
}

/// `s` is a span of the document `text`: its range fits the document and its
/// text is exactly the bytes of that range.
pub open spec fn span_wf(s: LanguageSitterResult, text: Seq<u8>) -> bool {
    &&& s.start_pos <= s.end_pos <= text.len()
    &&& s.text@ == text.subrange(s.start_pos as int, s.end_pos as int)
}

/// Span order: ascending start, ties broken by the shorter span first.
pub open spec fn span_le(a: LanguageSitterResult, b: LanguageSitterResult) -> bool {
    a.start_pos < b.start_pos || (a.start_pos == b.start_pos && a.end_pos <= b.end_pos)
}

pub open spec fn spans_sorted(s: Seq<LanguageSitterResult>) -> bool {
    forall|i: int, j: int| 0 <= i < j < s.len() ==> span_le(s[i], s[j])
}

/// The byte range a span covers.
pub open spec fn span_range(s: LanguageSitterResult) -> (usize, usize) {
    (s.start_pos, s.end_pos)
}

/// The byte ranges of a list of spans, in order.
pub open spec fn span_ranges(s: Seq<LanguageSitterResult>) -> Seq<(usize, usize)> {
    s.map_values(|x: LanguageSitterResult| span_range(x))
}

/// Whether a raw capture fits the document.
pub open spec fn capture_wf(c: (usize, usize), text_len: int) -> bool {
    c.0 <= c.1 <= text_len
}

/// Capture order: ascending start, ties broken by the shorter range first.
pub open spec fn capture_le(a: (usize, usize), b: (usize, usize)) -> bool {
    a.0 < b.0 || (a.0 == b.0 && a.1 <= b.1)
}

pub open spec fn captures_sorted(s: Seq<(usize, usize)>) -> bool {
    forall|i: int, j: int| 0 <= i < j < s.len() ==> capture_le(s[i], s[j])
}

/// A configured language whose grammar has not been loaded yet.
#[derive(Debug)]
pub struct LanguageSitterUninitialised {
    pub language_name: String,
    pub language_fn_name: String,
    pub language_library_name: String,
    pub language_library_search_path: Vec<String>,
    pub nodes_to_check: Vec<String>,
}

/// A configured language whose grammar the embedding binary has loaded.
#[derive(Debug)]
pub struct LanguageSitterInitialised {
    pub language_name: String,
    pub language_library_name: String,
    pub language_library_search_path: Vec<String>,
    pub nodes_to_check: Vec<String>,
}

/// What came of asking the grammar engine to load a language's library and
/// compile its query patterns.
#[derive(Clone, Copy, Debug, PartialEq, Eq, Structural)]
pub enum GrammarLoadOutcome {
    Loaded,
    Failed,
}

fn clone_string_vec(v: &Vec<String>) -> (r: Vec<String>)
    ensures
        r@ =~= v@,
{
    let mut r: Vec<String> = Vec::new();
    let mut k: usize = 0;
    while k < v.len()
        invariant
            k <= v@.len(),
            r@ =~= v@.subrange(0, k as int),
        decreases v@.len() - k,
    {
        r.push(v[k].clone());
        k = k + 1;
    }
    r
}

/// The file paths at which a grammar library of the given name is looked up,
/// one per search directory, in order.
pub fn grammar_library_paths(library_name: &str, search_path: &Vec<String>) -> (r: Vec<String>)
    ensures
        r@.len() == search_path@.len(),
        forall|i: int|
            0 <= i < r@.len() ==> r@[i]@ == search_path@[i]@ + "/"@ + library_name@ + ".so"@,
{
    let mut r: Vec<String> = Vec::new();
    let mut k: usize = 0;
    while k < search_path.len()
        invariant
            k <= search_path@.len(),
            r@.len() == k,
            forall|i: int|
                0 <= i < k ==> r@[i]@ == search_path@[i]@ + "/"@ + library_name@ + ".so"@,
        decreases search_path@.len() - k,
    {
        let mut p = search_path[k].clone();
        p.append("/");
        p.append(library_name);
        p.append(".so");
        r.push(p);
        k = k + 1;
    }
    r
}

fn capture_le_exec(a: (usize, usize), b: (usize, usize)) -> (r: bool)
    ensures
        r == capture_le(a, b),
{
    a.0 < b.0 || (a.0 == b.0 && a.1 <= b.1)
}

/// Order captures by ascending start byte, ties broken by the shorter range
/// first; the result holds exactly the captures given.
fn sort_captures(captures: Vec<(usize, usize)>) -> (r: Vec<(usize, usize)>)
    ensures
        r@.to_multiset() == captures@.to_multiset(),
        captures_sorted(r@),
{
    broadcast use vstd::seq_lib::group_to_multiset_ensures;

    let mut work = captures;
    let mut out: Vec<(usize, usize)> = Vec::new();
    while work.len() > 0
        invariant
            out@.to_multiset().add(work@.to_multiset()) =~= captures@.to_multiset(),
            captures_sorted(out@),
            forall|i: int, j: int|
                0 <= i < out@.len() && 0 <= j < work@.len() ==> capture_le(out@[i], work@[j]),
        decreases work@.len(),
    {
        let ghost old_work = work@;
        let ghost old_out = out@;
        let mut min: usize = 0;
        let mut k: usize = 1;
        while k < work.len()
            invariant
                min < work@.len(),
                k <= work@.len(),
                forall|j: int| 0 <= j < k ==> capture_le(work@[min as int], work@[j]),
            decreases work@.len() - k,
        {
            if capture_le_exec(work[k], work[min]) {
                min = k;
            }
            k = k + 1;
        }
        let item = work.remove(min);
        out.push(item);
        proof {
            old_out.to_multiset_ensures();
            old_work.to_multiset_ensures();
            assert(old_work[min as int] == item);
            assert(old_work.contains(item));
            assert(old_work.to_multiset().count(item) > 0);
            assert(out@ == old_out.push(item));
            assert(work@ == old_work.remove(min as int));
            assert(out@.to_multiset() =~= old_out.to_multiset().insert(item));
            assert(work@.to_multiset() =~= old_work.to_multiset().remove(item));
            assert(out@.to_multiset().add(work@.to_multiset()) =~= old_out.to_multiset().add(
                old_work.to_multiset(),
            ));
            assert forall|j: int| 0 <= j < work@.len() implies old_work.contains(#[trigger] work@[j]) by {
                if j < min {
                    assert(work@[j] == old_work[j]);
                } else {
                    assert(work@[j] == old_work[j + 1]);
                }
            }
            assert forall|i: int, j: int|
                0 <= i < out@.len() && 0 <= j < work@.len() implies capture_le(
                out@[i],
                work@[j],
            ) by {
                let c = work@[j];
                let j0 = choose|j0: int| 0 <= j0 < old_work.len() && old_work[j0] == c;
                assert(capture_le(item, old_work[j0]));
                if i < old_out.len() {
                    assert(capture_le(old_out[i], old_work[j0]));
                }
            }
        }
    }
    out
}

fn copy_captures(v: &Vec<(usize, usize)>) -> (r: Vec<(usize, usize)>)
    ensures
        r@ =~= v@,
{
    let mut r: Vec<(usize, usize)> = Vec::new();
    let mut k: usize = 0;
    while k < v.len()
        invariant
            k <= v@.len(),
            r@ =~= v@.subrange(0, k as int),
        decreases v@.len() - k,
    {
        r.push(v[k]);
        k = k + 1;
    }
    r
}

impl LanguageSitterInitialised {
    /// Turn the raw byte-range captures the grammar engine produced for this
    /// document into well-formed spans: each capture's bytes are cut from the
    /// document, the merged list is sorted by start byte (ties: shorter
    /// first), and a capture that does not fit the document is rejected.
    pub fn parse_str(&self, text: &[u8], captures: &Vec<(usize, usize)>) -> (r: Result<
        Vec<LanguageSitterResult>,
        LtlspError,
    >)
        ensures
            r is Ok <==> (forall|i: int|
                0 <= i < captures@.len() ==> capture_wf(captures@[i], text@.len() as int)),
            r matches Err(e) ==> (e matches LtlspError::ExtractionError { language }
                && language@ == self.language_name@),
            r matches Ok(v) ==> {
                &&& v@.len() == captures@.len()
                &&& spans_sorted(v@)
                &&& forall|k: int| 0 <= k < v@.len() ==> span_wf(#[trigger] v@[k], text@)
                &&& span_ranges(v@).to_multiset() == captures@.to_multiset()
            },
    {
        broadcast use vstd::seq_lib::group_to_multiset_ensures;

        let mut i: usize = 0;
        while i < captures.len()
            invariant
                i <= captures@.len(),
                forall|j: int| 0 <= j < i ==> capture_wf(captures@[j], text@.len() as int),
            decreases captures@.len() - i,
        {
            let (s, e) = captures[i];
            if !(s <= e && e <= text.len()) {
                return Err(LtlspError::ExtractionError { language: self.language_name.clone() });
            }
            i = i + 1;
        }
        let sorted = sort_captures(copy_captures(captures));
        let mut v: Vec<LanguageSitterResult> = Vec::new();
        let mut k: usize = 0;
        while k < sorted.len()
            invariant
                k <= sorted@.len(),
                v@.len() == k,
                sorted@.to_multiset() == captures@.to_multiset(),
                captures_sorted(sorted@),
                forall|j: int| 0 <= j < captures@.len() ==> capture_wf(captures@[j], text@.len() as int),
                forall|j: int| 0 <= j < k ==> span_range(#[trigger] v@[j]) == sorted@[j],
                forall|j: int| 0 <= j < k ==> span_wf(#[trigger] v@[j], text@),
            decreases sorted@.len() - k,
        {
            let (s, e) = sorted[k];
            proof {
                sorted@.to_multiset_ensures();
                captures@.to_multiset_ensures();
                assert(sorted@[k as int] == (s, e));
                assert(sorted@.contains((s, e)));
                assert(sorted@.to_multiset().count((s, e)) > 0);
                assert(captures@.to_multiset().count((s, e)) > 0);
                assert(captures@.contains((s, e)));
                let j0 = choose|j0: int| 0 <= j0 < captures@.len() && captures@[j0] == (s, e);
                assert(capture_wf(captures@[j0], text@.len() as int));
            }
            let t = vstd::slice::slice_to_vec(vstd::slice::slice_subrange(text, s, e));
            v.push(LanguageSitterResult { text: t, start_pos: s, end_pos: e });
            k = k + 1;
        }
        proof {
            sorted@.to_multiset_ensures();
            captures@.to_multiset_ensures();
            assert(sorted@.len() == captures@.len());
            assert(span_ranges(v@) =~= sorted@);
            assert forall|a: int, b: int| 0 <= a < b < v@.len() implies span_le(v@[a], v@[b]) by {
                assert(capture_le(sorted@[a], sorted@[b]));
            }
        }
        Ok(v)
    }
}

impl LanguageSitterUninitialised {
    /// Record a language's configuration together with the directories in
    /// which its grammar library will be searched.
    pub fn new(
        language: &str,
        language_config: &LanguageSitterConfigNode,
        language_library_search_path: Vec<String>,
    ) -> (r: Result<Self, LtlspError>)
        ensures
            r is Ok,
            ({
                let u = r->Ok_0;
                &&& u.language_name@ == language@
                &&& u.language_fn_name@ == language_config.language_fn_name@
                &&& u.language_library_name@ == language_config.language_library_name@
                &&& u.language_library_search_path@ =~= language_library_search_path@
                &&& u.nodes_to_check@ =~= language_config.expressions@
            }),
    {
        Ok(
            LanguageSitterUninitialised {
                language_name: language.to_owned(),
                language_fn_name: language_config.language_fn_name.clone(),
                language_library_name: language_config.language_library_name.clone(),
                language_library_search_path,
                nodes_to_check: clone_string_vec(&language_config.expressions),
            },
        )
    }

    /// Promote the language once the grammar engine reports on loading its
    /// library and compiling its queries.  A failed load is fatal for the
    /// language and carries the library paths that were searched.
    pub fn initialise(&self, outcome: GrammarLoadOutcome) -> (r: Result<
        LanguageSitterInitialised,
        LtlspError,
    >)
        ensures
            outcome is Loaded ==> ({
                &&& r is Ok
                &&& r->Ok_0.language_name@ == self.language_name@
                &&& r->Ok_0.language_library_name@ == self.language_library_name@
                &&& r->Ok_0.language_library_search_path@ =~= self.language_library_search_path@
                &&& r->Ok_0.nodes_to_check@ =~= self.nodes_to_check@
            }),
            outcome is Failed ==> ({
                &&& r matches Err(LtlspError::GrammarLoadError { language, searched })
                &&& language@ == self.language_name@
                &&& searched@.len() == self.language_library_search_path@.len()
                &&& forall|i: int|
                    0 <= i < searched@.len() ==> searched@[i]@ == self.language_library_search_path@[i]@
                        + "/"@ + self.language_library_name@ + ".so"@
            }),
    {
        match outcome {
            GrammarLoadOutcome::Loaded => Ok(
                LanguageSitterInitialised {
                    language_name: self.language_name.clone(),
                    language_library_name: self.language_library_name.clone(),
                    language_library_search_path: clone_string_vec(
                        &self.language_library_search_path,
                    ),
                    nodes_to_check: clone_string_vec(&self.nodes_to_check),
                },
            ),
            GrammarLoadOutcome::Failed => Err(
                LtlspError::GrammarLoadError {
                    language: self.language_name.clone(),
                    searched: grammar_library_paths(
                        self.language_library_name.as_str(),
                        &self.language_library_search_path,
                    ),
                },
            ),
        }
    }
}

fn str_eq_string(a: &str, b: &String) -> (r: bool)
    ensures
        r == (a@ == b@),
{
    let owned = a.to_owned();
    owned == *b
}

/// The uninitialised registry holds `lang`.
pub open spec fn uninit_has(s: Seq<LanguageSitterUninitialised>, lang: Seq<char>) -> bool {
    exists|i: int| 0 <= i < s.len() && s[i].language_name@ == lang
}

/// The initialised registry holds `lang`.
pub open spec fn init_has(s: Seq<LanguageSitterInitialised>, lang: Seq<char>) -> bool {
    exists|i: int| 0 <= i < s.len() && s[i].language_name@ == lang
}

/// The initialised entry `e` is the promotion of the configured entry `u`.
pub open spec fn initialised_from(e: LanguageSitterInitialised, u: LanguageSitterUninitialised) -> bool {
    &&& e.language_name@ == u.language_name@
    &&& e.language_library_name@ == u.language_library_name@
    &&& e.language_library_search_path@ == u.language_library_search_path@
    &&& e.nodes_to_check@ == u.nodes_to_check@
}

/// The per-language registry: every configured language, and those whose
/// grammar the embedding binary has loaded so far.
#[derive(Debug)]
pub struct LanguageSitters {
    pub language_parsers_uninitialised: Vec<LanguageSitterUninitialised>,
    pub language_parsers_initialised: Vec<LanguageSitterInitialised>,
}

impl LanguageSitters {
    /// Language names are unique on both sides of the registry.
    pub open spec fn wf(self) -> bool {
        &&& forall|i: int, j: int|
            0 <= i < j < self.language_parsers_uninitialised@.len()
                ==> self.language_parsers_uninitialised@[i].language_name@
                != self.language_parsers_uninitialised@[j].language_name@
        &&& forall|i: int, j: int|
            0 <= i < j < self.language_parsers_initialised@.len()
                ==> self.language_parsers_initialised@[i].language_name@
                != self.language_parsers_initialised@[j].language_name@
    }

    /// Build the registry from the configuration: one uninitialised entry per
    /// configured language, nothing initialised yet.
    pub fn new(
        language_configs: &Vec<(String, LanguageSitterConfigNode)>,
        search_path: &Vec<String>,
    ) -> (r: Result<LanguageSitters, LtlspError>)
        requires
            crate::config::config_languages_unique(language_configs@),
        ensures
            r is Ok,
            ({
                let s = r->Ok_0;
                &&& s.wf()
                &&& s.language_parsers_initialised@.len() == 0
                &&& s.language_parsers_uninitialised@.len() == language_configs@.len()
                &&& forall|i: int|
                    0 <= i < language_configs@.len() ==> {
                        let u = #[trigger] s.language_parsers_uninitialised@[i];
                        &&& u.language_name@ == language_configs@[i].0@
                        &&& u.language_fn_name@ == language_configs@[i].1.language_fn_name@
                        &&& u.language_library_name@ == language_configs@[i].1.language_library_name@
                        &&& u.language_library_search_path@ == search_path@
                        &&& u.nodes_to_check@ == language_configs@[i].1.expressions@
                    }
            }),
    {
        let mut uninitialised: Vec<LanguageSitterUninitialised> = Vec::new();
        let mut k: usize = 0;
        while k < language_configs.len()
            invariant
                k <= language_configs@.len(),
                uninitialised@.len() == k,
                forall|i: int|
                    0 <= i < k ==> {
                        let u = #[trigger] uninitialised@[i];
                        &&& u.language_name@ == language_configs@[i].0@
                        &&& u.language_fn_name@ == language_configs@[i].1.language_fn_name@
                        &&& u.language_library_name@ == language_configs@[i].1.language_library_name@
                        &&& u.language_library_search_path@ == search_path@
                        &&& u.nodes_to_check@ == language_configs@[i].1.expressions@
                    },
            decreases language_configs@.len() - k,
        {
            let (name, node) = &language_configs[k];
            match LanguageSitterUninitialised::new(
                name.as_str(),
                node,
                clone_string_vec(search_path),
            ) {
                Ok(u) => uninitialised.push(u),
                Err(e) => {
                    return Err(e);
                },
            }
            k = k + 1;
        }
        let s = LanguageSitters {
            language_parsers_uninitialised: uninitialised,
            language_parsers_initialised: Vec::new(),
        };
        proof {
            assert forall|i: int, j: int|
                0 <= i < j < s.language_parsers_uninitialised@.len() implies s
                .language_parsers_uninitialised@[i].language_name@
                != s.language_parsers_uninitialised@[j].language_name@ by {
                assert(language_configs@[i].0@ != language_configs@[j].0@);
            }
        }
        Ok(s)
    }

    /// Whether the language is configured at all.
    pub fn is_initialised(&self, language: &str) -> (r: bool)
        ensures
            r == uninit_has(self.language_parsers_uninitialised@, language@),
    {
        let mut k: usize = 0;
        while k < self.language_parsers_uninitialised.len()
            invariant
                k <= self.language_parsers_uninitialised@.len(),
                forall|i: int|
                    0 <= i < k ==> self.language_parsers_uninitialised@[i].language_name@
                        != language@,
            decreases self.language_parsers_uninitialised@.len() - k,
        {
            if str_eq_string(language, &self.language_parsers_uninitialised[k].language_name) {
                return true;
            }
            k = k + 1;
        }
        false
    }

    fn find_initialised(&self, language: &str) -> (r: Option<usize>)
        ensures
            match r {
                Some(i) => i < self.language_parsers_initialised@.len()
                    && self.language_parsers_initialised@[i as int].language_name@ == language@,
                None => !init_has(self.language_parsers_initialised@, language@),
            },
    {
        let mut k: usize = 0;
        while k < self.language_parsers_initialised.len()
            invariant
                k <= self.language_parsers_initialised@.len(),
                forall|i: int|
                    0 <= i < k ==> self.language_parsers_initialised@[i].language_name@
                        != language@,
            decreases self.language_parsers_initialised@.len() - k,
        {
            if str_eq_string(language, &self.language_parsers_initialised[k].language_name) {
                return Some(k);
            }
            k = k + 1;
        }
        None
    }

    fn find_uninitialised(&self, language: &str) -> (r: Option<usize>)
        ensures
            match r {
                Some(i) => i < self.language_parsers_uninitialised@.len()
                    && self.language_parsers_uninitialised@[i as int].language_name@ == language@,
                None => !uninit_has(self.language_parsers_uninitialised@, language@),
            },
    {
        let mut k: usize = 0;
        while k < self.language_parsers_uninitialised.len()
            invariant
                k <= self.language_parsers_uninitialised@.len(),
                forall|i: int|
                    0 <= i < k ==> self.language_parsers_uninitialised@[i].language_name@
                        != language@,
            decreases self.language_parsers_uninitialised@.len() - k,
        {
            if str_eq_string(language, &self.language_parsers_uninitialised[k].language_name) {
                return Some(k);
            }
            k = k + 1;
        }
        None
    }

    /// Promote a configured language once the grammar engine reports on its
    /// load.  Promoting a language that is already initialised, or whose load
    /// outcome is a failure, leaves the registry as it was.
    pub fn initialise(&mut self, language: &str, outcome: GrammarLoadOutcome) -> (r: Result<
        (),
        LtlspError,
    >)
        requires
            old(self).wf(),
        ensures
            final(self).wf(),
            final(self).language_parsers_uninitialised@ == old(self).language_parsers_uninitialised@,
            init_has(old(self).language_parsers_initialised@, language@) ==> r is Ok && final(self).language_parsers_initialised@ == old(self).language_parsers_initialised@,
            !init_has(old(self).language_parsers_initialised@, language@) && !uninit_has(
                old(self).language_parsers_uninitialised@,
                language@,
            ) ==> ({
                &&& r matches Err(LtlspError::NotInitialised { language: l })
                &&& l@ == language@
                &&& final(self).language_parsers_initialised@ == old(self).language_parsers_initialised@
            }),
            !init_has(old(self).language_parsers_initialised@, language@) && uninit_has(
                old(self).language_parsers_uninitialised@,
                language@,
            ) && outcome is Loaded ==> ({
                &&& r is Ok
                &&& final(self).language_parsers_initialised@.len() == old(self).language_parsers_initialised@.len() + 1
                &&& exists|i: int|
                    0 <= i < old(self).language_parsers_uninitialised@.len() && old(self).language_parsers_uninitialised@[i].language_name@ == language@
                        && initialised_from(
                        final(self).language_parsers_initialised@.last(),
                        #[trigger] old(self).language_parsers_uninitialised@[i],
                    )
                &&& final(self).language_parsers_initialised@.drop_last() == old(self).language_parsers_initialised@
            }),
            !init_has(old(self).language_parsers_initialised@, language@) && uninit_has(
                old(self).language_parsers_uninitialised@,
                language@,
            ) && outcome is Failed ==> ({
                &&& r matches Err(LtlspError::GrammarLoadError { language: l, searched: _ })
                &&& l@ == language@
                &&& final(self).language_parsers_initialised@ == old(self).language_parsers_initialised@
            }),
    {
        if self.find_initialised(language).is_some() {
            return Ok(());
        }
        let uninit_index = match self.find_uninitialised(language) {
            Some(i) => i,
            None => {
                return Err(LtlspError::NotInitialised { language: language.to_owned() });
            },
        };
        match self.language_parsers_uninitialised[uninit_index].initialise(outcome) {
            Ok(initialised) => {
                let ghost before = self.language_parsers_initialised@;
                self.language_parsers_initialised.push(initialised);
                proof {
                    assert(self.language_parsers_initialised@.drop_last() =~= before);
                    assert forall|i: int, j: int|
                        0 <= i < j < self.language_parsers_initialised@.len() implies self
                        .language_parsers_initialised@[i].language_name@ != self
                        .language_parsers_initialised@[j].language_name@ by {
                        if j == self.language_parsers_initialised@.len() - 1 {
                            assert(self.language_parsers_initialised@[j].language_name@
                                == language@);
                            assert(!init_has(before, language@));
                        }
                    }
                }
                Ok(())
            },
            Err(e) => Err(e),
        }
    }

    /// Extract the sorted spans of a document, handing the grammar engine's
    /// raw captures to the language's entry; a language that was never
    /// initialised is rejected.
    pub fn parse_str(&self, language: &str, text: &[u8], captures: &Vec<(usize, usize)>) -> (r:
        Result<Vec<LanguageSitterResult>, LtlspError>)
        ensures
            !init_has(self.language_parsers_initialised@, language@) ==> ({
                &&& r matches Err(LtlspError::NotInitialised { language: l })
                &&& l@ == language@
            }),
            init_has(self.language_parsers_initialised@, language@) ==> ({
                &&& (r is Ok <==> (forall|i: int|
                    0 <= i < captures@.len() ==> capture_wf(captures@[i], text@.len() as int)))
                &&& (r matches Ok(v) ==> {
                    &&& v@.len() == captures@.len()
                    &&& spans_sorted(v@)
                    &&& forall|k: int| 0 <= k < v@.len() ==> span_wf(#[trigger] v@[k], text@)
                    &&& span_ranges(v@).to_multiset() == captures@.to_multiset()
                })
                &&& (r matches Err(e) ==> (e matches LtlspError::ExtractionError { language: l }
                    && l@ == language@))
            }),
    {
        match self.find_initialised(language) {
            Some(i) => self.language_parsers_initialised[i].parse_str(text, captures),
            None => Err(LtlspError::NotInitialised { language: language.to_owned() }),
        }
    }
}

/// A minimal, built-in description of the one language that is configured out
/// of the box.
#[derive(Debug)]
pub struct LanguageSitterConfiguration {
    pub language: String,
    pub library_location: String,
}

/// The built-in default configuration entry.  A stub: the language is fixed,
/// the library location is a placeholder whose value callers must not rely
/// on, so the contract leaves it open.
pub fn get_configuration(_language: &str) -> (r: LanguageSitterConfiguration)
    ensures
        r.language@ == "rust"@,
{
    LanguageSitterConfiguration {
        language: "rust".to_owned(),
        library_location: "TODO".to_owned(),
    }
}

} // verus!
