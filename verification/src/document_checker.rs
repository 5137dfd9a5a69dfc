//! The position mapper and per-document diagnostic store.
//!
//! A check cycle ends here: the service's matches are mapped from byte
//! offsets to line/column positions, given process-unique ascending ids, and
//! stored as one result per document identity.  A result for an older
//! document version never overwrites a newer one — the version comparison,
//! not call order, is the mechanism — and a failed cycle writes nothing.

use vstd::prelude::*;
use vstd::pervasive::VecAdditionalExecFns;
use vstd::string::StringExecFns;

use crate::annotation::{annotate, is_filler_markup, owed_checkables, spans_buildable, spans_well_formed};
use crate::error::LtlspError;
use crate::languagetool::{annotation_len, checkables, LanguageToolRequest, LanguageToolResultMatch};
use crate::manage_service::LanguageToolRunnerLocal;
use crate::position::{col_of, line_col, line_of, Position};
use crate::tree_sitter::{LanguageSitterResult, LanguageSitters};

verus! {

/// One quick-fix suggestion of a diagnostic.
#[derive(Debug)]
pub struct DocumentLanguageToolCheckChunkResultCodeAction {
    pub value: String,
}

/// One stored diagnostic: a match translated into editor coordinates, under a
/// process-unique id.
#[derive(Debug)]
pub struct DocumentLanguageToolCheckChunkResult {
    pub id: i64,
    pub start: Position,
    pub end: Position,
    pub code: String,
    pub message: String,
    pub short_message: String,
    pub code_actions: Vec<DocumentLanguageToolCheckChunkResultCodeAction>,
}

/// The stored outcome of one completed check of one document version.
#[derive(Debug)]
pub struct DocumentLanguageToolCheckResult {
    pub language: String,
    pub document_uri: String,
    pub document_version: i32,
    pub diagnostics: Vec<DocumentLanguageToolCheckChunkResult>,
}

/// The store, together with the extractor registry and the service runner the
/// embedding binary acquired, and the id counter the diagnostics draw from.
#[derive(Debug)]
pub struct DocumentLanguageToolChecker {
    pub language_sitter: LanguageSitters,
    pub language_tool: LanguageToolRunnerLocal,
    pub documents: Vec<DocumentLanguageToolCheckResult>,
    pub next_id: i64,
}

/// The store holds a result for `uri`.
pub open spec fn doc_has(docs: Seq<DocumentLanguageToolCheckResult>, uri: Seq<char>) -> bool {
    exists|i: int| 0 <= i < docs.len() && docs[i].document_uri@ == uri
}

/// The index of `uri`'s result; meaningful under [`doc_has`] and uniqueness.
pub open spec fn doc_index(docs: Seq<DocumentLanguageToolCheckResult>, uri: Seq<char>) -> int {
    choose|i: int| 0 <= i < docs.len() && docs[i].document_uri@ == uri
}

/// A stored result for `uri` is newer than `version`: checking that version
/// again is a stale write and must be suppressed.
pub open spec fn stale(
    docs: Seq<DocumentLanguageToolCheckResult>,
    uri: Seq<char>,
    version: i32,
) -> bool {
    exists|i: int|
        0 <= i < docs.len() && docs[i].document_uri@ == uri && docs[i].document_version > version
}

/// The match fits the document it was reported against.
pub open spec fn match_in_bounds(m: LanguageToolResultMatch, text_len: int) -> bool {
    m.offset + m.length <= text_len
}

/// The diagnostic `c` renders the match `m` against document `text` under id
/// `id`: positions by the byte line/column mapping, rule id as the code, and
/// one quick-fix value per suggested replacement.
pub open spec fn chunk_matches(
    c: DocumentLanguageToolCheckChunkResult,
    m: LanguageToolResultMatch,
    text: Seq<u8>,
    id: int,
) -> bool {
    &&& c.id == id
    &&& c.start.line as int == line_of(text, m.offset as int)
    &&& c.start.character as int == col_of(text, m.offset as int)
    &&& c.end.line as int == line_of(text, m.offset + m.length)
    &&& c.end.character as int == col_of(text, m.offset + m.length)
    &&& c.code@ == m.rule_id@
    &&& c.message@ == m.message@
    &&& c.short_message@ == m.short_message@
    &&& c.code_actions@.len() == m.replacements@.len()
    &&& forall|j: int|
        0 <= j < m.replacements@.len() ==> (#[trigger] c.code_actions@[j]).value@
            == m.replacements@[j].value@
}

/// The stored result `d` is the outcome of checking `(language, uri,
/// version, text)` with the given matches, ids drawn from `first_id` up.
pub open spec fn result_matches(
    d: DocumentLanguageToolCheckResult,
    language: Seq<char>,
    uri: Seq<char>,
    version: i32,
    text: Seq<u8>,
    matches: Seq<LanguageToolResultMatch>,
    first_id: int,
) -> bool {
    &&& d.language@ == language
    &&& d.document_uri@ == uri
    &&& d.document_version == version
    &&& d.diagnostics@.len() == matches.len()
    &&& forall|k: int|
        0 <= k < matches.len() ==> chunk_matches(
            #[trigger] d.diagnostics@[k],
            matches[k],
            text,
            first_id + k,
        )
}

/// The ids of a stored result are in issue order and below the counter.
pub open spec fn doc_ids_wf(d: DocumentLanguageToolCheckResult, next_id: i64) -> bool {
    &&& forall|k: int|
        0 <= k < d.diagnostics@.len() ==> 1 <= (#[trigger] d.diagnostics@[k]).id < next_id
    &&& forall|k1: int, k2: int|
        0 <= k1 < k2 < d.diagnostics@.len() ==> d.diagnostics@[k1].id < d.diagnostics@[k2].id
}

/// The store's diagnostics under `uri` hold the id `id`.
pub open spec fn has_diagnostic(
    docs: Seq<DocumentLanguageToolCheckResult>,
    uri: Seq<char>,
    id: i64,
) -> bool {
    doc_has(docs, uri) && exists|k: int|
        0 <= k < docs[doc_index(docs, uri)].diagnostics@.len() && docs[doc_index(
            docs,
            uri,
        )].diagnostics@[k].id == id
}

fn str_eq_string(a: &str, b: &String) -> (r: bool)
    ensures
        r == (a@ == b@),
{
    let owned = a.to_owned();
    owned == *b
}

impl DocumentLanguageToolChecker {
    /// One result per document identity, ids issued once and never reused.
    pub open spec fn wf(self) -> bool {
        &&& 1 <= self.next_id
        &&& forall|i: int, j: int|
            0 <= i < j < self.documents@.len() ==> (#[trigger] self.documents@[i]).document_uri@
                != (#[trigger] self.documents@[j]).document_uri@
        &&& forall|i: int|
            0 <= i < self.documents@.len() ==> doc_ids_wf(
                #[trigger] self.documents@[i],
                self.next_id,
            )
    }

    /// An empty store around the given extractor registry and service runner.
    pub fn new(language_sitter: LanguageSitters, language_tool: LanguageToolRunnerLocal) -> (r:
        DocumentLanguageToolChecker)
        ensures
            r.wf(),
            r.documents@.len() == 0,
            r.next_id == 1,
            r.language_sitter == language_sitter,
            r.language_tool == language_tool,
    {
        DocumentLanguageToolChecker {
            language_sitter,
            language_tool,
            documents: Vec::new(),
            next_id: 1,
        }
    }

    fn find_document(&self, document_uri: &str) -> (r: Option<usize>)
        ensures
            match r {
                Some(i) => i < self.documents@.len() && self.documents@[i as int].document_uri@
                    == document_uri@,
                None => !doc_has(self.documents@, document_uri@),
            },
    {
        let mut k: usize = 0;
        while k < self.documents.len()
            invariant
                k <= self.documents@.len(),
                forall|i: int| 0 <= i < k ==> self.documents@[i].document_uri@ != document_uri@,
            decreases self.documents@.len() - k,
        {
            if str_eq_string(document_uri, &self.documents[k].document_uri) {
                return Some(k);
            }
            k = k + 1;
        }
        None
    }

    /// Whether a check of this document version should proceed: it should
    /// unless the store already holds a newer version for the same document.
    pub fn should_check(&self, document_uri: &str, document_version: i32) -> (r: bool)
        requires
            self.wf(),
        ensures
            r == !stale(self.documents@, document_uri@, document_version),
    {
        match self.find_document(document_uri) {
            Some(i) => {
                if self.documents[i].document_version > document_version {
                    proof {
                        assert(stale(self.documents@, document_uri@, document_version));
                    }
                    false
                } else {
                    proof {
                        assert forall|j: int|
                            0 <= j < self.documents@.len() && self.documents@[j].document_uri@
                                == document_uri@ implies self.documents@[j].document_version
                            <= document_version by {
                            if j != i as int {
                                assert(self.documents@[j].document_uri@ != self.documents@[i as int].document_uri@);
                            }
                        }
                    }
                    true
                }
            },
            None => true,
        }
    }

    /// The language a previously checked document was checked as.
    pub fn get_language(&self, document_uri: &str) -> (r: Option<&String>)
        requires
            self.wf(),
        ensures
            r is Some <==> doc_has(self.documents@, document_uri@),
            r matches Some(l) ==> l@ == self.documents@[doc_index(
                self.documents@,
                document_uri@,
            )].language@,
    {
        match self.find_document(document_uri) {
            Some(i) => {
                proof {
                    let idx = doc_index(self.documents@, document_uri@);
                    if idx != i as int {
                        assert(self.documents@[idx].document_uri@ != self.documents@[i as int].document_uri@);
                    }
                }
                Some(&self.documents[i].language)
            },
            None => None,
        }
    }

    /// The stored result for a document, if any.
    pub fn get_result(&self, document_uri: &str) -> (r: Option<&DocumentLanguageToolCheckResult>)
        requires
            self.wf(),
        ensures
            r is Some <==> doc_has(self.documents@, document_uri@),
            r matches Some(d) ==> *d == self.documents@[doc_index(
                self.documents@,
                document_uri@,
            )],
    {
        match self.find_document(document_uri) {
            Some(i) => {
                proof {
                    let idx = doc_index(self.documents@, document_uri@);
                    if idx != i as int {
                        assert(self.documents@[idx].document_uri@ != self.documents@[i as int].document_uri@);
                    }
                }
                Some(&self.documents[i])
            },
            None => None,
        }
    }

    /// Look a diagnostic up by document and id.  An unknown document, or an
    /// id that was never issued for it, answers nothing — callers treat that
    /// as "nothing to do".
    pub fn get_diagnostic(&self, document_uri: &str, id: i64) -> (r: Option<
        &DocumentLanguageToolCheckChunkResult,
    >)
        requires
            self.wf(),
        ensures
            r is Some <==> has_diagnostic(self.documents@, document_uri@, id),
            r matches Some(c) ==> c.id == id && doc_has(self.documents@, document_uri@)
                && self.documents@[doc_index(self.documents@, document_uri@)].diagnostics@.contains(
                *c,
            ),
    {
        let doc_i = match self.find_document(document_uri) {
            Some(i) => i,
            None => {
                return None;
            },
        };
        proof {
            let idx = doc_index(self.documents@, document_uri@);
            if idx != doc_i as int {
                assert(self.documents@[idx].document_uri@ != self.documents@[doc_i as int].document_uri@);
            }
        }
        proof {
            assert(doc_has(self.documents@, document_uri@));
            assert(doc_index(self.documents@, document_uri@) == doc_i as int);
        }
        let document = &self.documents[doc_i];
        let mut k: usize = document.diagnostics.len();
        while k > 0
            invariant
                doc_i < self.documents@.len(),
                self.documents@[doc_i as int].document_uri@ == document_uri@,
                doc_has(self.documents@, document_uri@),
                doc_index(self.documents@, document_uri@) == doc_i as int,
                *document == self.documents@[doc_i as int],
                k <= document.diagnostics@.len(),
                forall|j: int|
                    k <= j < document.diagnostics@.len() ==> (
                    #[trigger] document.diagnostics@[j]).id != id,
            decreases k,
        {
            k = k - 1;
            if document.diagnostics[k].id == id {
                proof {
                    assert(document.diagnostics@[k as int].id == id);
                    assert(has_diagnostic(self.documents@, document_uri@, id));
                    assert(self.documents@[doc_index(
                        self.documents@,
                        document_uri@,
                    )].diagnostics@.contains(document.diagnostics@[k as int]));
                }
                return Some(&document.diagnostics[k]);
            }
        }
        None
    }

    /// Rebuild a document around its extracted spans as a request against
    /// the acquired service.  Spans that are unsorted, overlapping or out of
    /// the document's range are rejected explicitly, not silently mishandled.
    pub fn build_request(
        &self,
        language: &str,
        spans: &Vec<LanguageSitterResult>,
        document_text: &[u8],
    ) -> (r: Result<LanguageToolRequest, LtlspError>)
        ensures
            r is Ok <==> spans_buildable(spans@, document_text@.len() as int),
            r matches Ok(req) ==> ({
                &&& req.server@ == "localhost"@
                &&& req.port == self.language_tool.port
                &&& req.language@ == self.language_tool.language@
                &&& annotation_len(req.document_data.annotation@) == document_text@.len()
                &&& checkables(req.document_data.annotation@) == owed_checkables(
                    spans@,
                    document_text@,
                )
                &&& forall|i: int|
                    0 <= i < req.document_data.annotation@.len() ==> (
                    #[trigger] req.document_data.annotation@[i]) is Markup ==> is_filler_markup(
                        req.document_data.annotation@[i],
                    )
            }),
            r matches Err(e) ==> (e matches LtlspError::ExtractionError { language: l } && l@
                == language@),
    {
        if !spans_well_formed(spans, document_text.len()) {
            return Err(LtlspError::ExtractionError { language: language.to_owned() });
        }
        let mut request = self.language_tool.new_request();
        annotate(&mut request, spans, document_text);
        Ok(request)
    }

    /// Record the completed check of one document version: map each match to
    /// a diagnostic, issue fresh ids, and replace the document's stored
    /// result wholesale.  A version older than the stored one is suppressed
    /// without side effects; a match that does not fit the document writes
    /// nothing and reports the malformed answer.
    pub fn record_result(
        &mut self,
        language: &str,
        document_uri: &str,
        document_version: i32,
        document_text: &[u8],
        matches: &Vec<LanguageToolResultMatch>,
    ) -> (r: Result<bool, LtlspError>)
        requires
            old(self).wf(),
            document_text@.len() <= u32::MAX,
            old(self).next_id + matches@.len() <= i64::MAX,
        ensures
            final(self).wf(),
            final(self).language_sitter == old(self).language_sitter,
            final(self).language_tool == old(self).language_tool,
            stale(old(self).documents@, document_uri@, document_version) ==> ({
                &&& r == Result::<bool, LtlspError>::Ok(false)
                &&& final(self).documents@ == old(self).documents@
                &&& final(self).next_id == old(self).next_id
            }),
            !stale(old(self).documents@, document_uri@, document_version) && !(forall|k: int|
                0 <= k < matches@.len() ==> match_in_bounds(
                    #[trigger] matches@[k],
                    document_text@.len() as int,
                )) ==> ({
                &&& r matches Err(LtlspError::ServiceMalformed { .. })
                &&& final(self).documents@ == old(self).documents@
                &&& final(self).next_id == old(self).next_id
            }),
            !stale(old(self).documents@, document_uri@, document_version) && (forall|k: int|
                0 <= k < matches@.len() ==> match_in_bounds(
                    #[trigger] matches@[k],
                    document_text@.len() as int,
                )) ==> ({
                &&& r == Result::<bool, LtlspError>::Ok(true)
                &&& final(self).next_id == old(self).next_id + matches@.len()
                &&& doc_has(final(self).documents@, document_uri@)
                &&& result_matches(
                    final(self).documents@[doc_index(final(self).documents@, document_uri@)],
                    language@,
                    document_uri@,
                    document_version,
                    document_text@,
                    matches@,
                    old(self).next_id as int,
                )
                &&& (doc_has(old(self).documents@, document_uri@) ==> ({
                    &&& final(self).documents@.len() == old(self).documents@.len()
                    &&& doc_index(final(self).documents@, document_uri@) == doc_index(
                        old(self).documents@,
                        document_uri@,
                    )
                    &&& forall|i: int|
                        0 <= i < old(self).documents@.len() && i != doc_index(
                            old(self).documents@,
                            document_uri@,
                        ) ==> final(self).documents@[i] == old(self).documents@[i]
                }))
                &&& (!doc_has(old(self).documents@, document_uri@) ==> ({
                    &&& final(self).documents@.len() == old(self).documents@.len() + 1
                    &&& final(self).documents@.drop_last() == old(self).documents@
                }))
            }),
    {
        let found = self.find_document(document_uri);
        if let Some(i) = found {
            if self.documents[i].document_version > document_version {
                proof {
                    assert(stale(self.documents@, document_uri@, document_version));
                }
                return Ok(false);
            }
        }
        proof {
            assert forall|j: int|
                0 <= j < self.documents@.len() && self.documents@[j].document_uri@
                    == document_uri@ implies self.documents@[j].document_version
                <= document_version by {
                if found is Some {
                    let i = found->0 as int;
                    if j != i {
                        assert(self.documents@[j].document_uri@ != self.documents@[i].document_uri@);
                    }
                } else {
                    assert(!doc_has(self.documents@, document_uri@));
                }
            }
            assert(!stale(self.documents@, document_uri@, document_version));
        }
        let mut k: usize = 0;
        while k < matches.len()
            invariant
                k <= matches@.len(),
                document_text@.len() <= u32::MAX,
                old(self).wf(),
                *self == *old(self),
                !stale(old(self).documents@, document_uri@, document_version),
                forall|j: int|
                    0 <= j < k ==> match_in_bounds(
                        #[trigger] matches@[j],
                        document_text@.len() as int,
                    ),
            decreases matches@.len() - k,
        {
            let m = &matches[k];
            if !(m.offset <= document_text.len() && m.length <= document_text.len() - m.offset) {
                proof {
                    assert(!match_in_bounds(matches@[k as int], document_text@.len() as int));
                }
                return Err(
                    LtlspError::ServiceMalformed {
                        message: "match offsets run past the document".to_owned(),
                    },
                );
            }
            k = k + 1;
        }
        let ghost first_id = self.next_id;
        let mut diagnostics: Vec<DocumentLanguageToolCheckChunkResult> = Vec::new();
        let mut id_counter: i64 = self.next_id;
        let mut k: usize = 0;
        while k < matches.len()
            invariant
                k <= matches@.len(),
                document_text@.len() <= u32::MAX,
                old(self).wf(),
                *self == *old(self),
                !stale(old(self).documents@, document_uri@, document_version),
                first_id == old(self).next_id,
                first_id + matches@.len() <= i64::MAX,
                id_counter == first_id + k,
                1 <= first_id,
                diagnostics@.len() == k,
                match found {
                    Some(i) => i < old(self).documents@.len() && old(self).documents@[
                        i as int
                    ].document_uri@ == document_uri@,
                    None => !doc_has(old(self).documents@, document_uri@),
                },
                forall|j: int|
                    0 <= j < matches@.len() ==> match_in_bounds(
                        #[trigger] matches@[j],
                        document_text@.len() as int,
                    ),
                forall|j: int|
                    0 <= j < k ==> chunk_matches(
                        #[trigger] diagnostics@[j],
                        matches@[j],
                        document_text@,
                        first_id + j,
                    ),
            decreases matches@.len() - k,
        {
            let m = &matches[k];
            let start = line_col(document_text, m.offset);
            let end = line_col(document_text, m.offset + m.length);
            let mut code_actions: Vec<DocumentLanguageToolCheckChunkResultCodeAction> = Vec::new();
            let mut j: usize = 0;
            while j < m.replacements.len()
                invariant
                    j <= m.replacements@.len(),
                    code_actions@.len() == j,
                    forall|t: int|
                        0 <= t < j ==> (#[trigger] code_actions@[t]).value@
                            == m.replacements@[t].value@,
                decreases m.replacements@.len() - j,
            {
                code_actions.push(
                    DocumentLanguageToolCheckChunkResultCodeAction {
                        value: m.replacements[j].value.clone(),
                    },
                );
                j = j + 1;
            }
            diagnostics.push(
                DocumentLanguageToolCheckChunkResult {
                    id: id_counter,
                    start,
                    end,
                    code: m.rule_id.clone(),
                    message: m.message.clone(),
                    short_message: m.short_message.clone(),
                    code_actions,
                },
            );
            id_counter = id_counter + 1;
            k = k + 1;
        }
        let new_result = DocumentLanguageToolCheckResult {
            language: language.to_owned(),
            document_uri: document_uri.to_owned(),
            document_version,
            diagnostics,
        };
        let ghost old_docs = self.documents@;
        match found {
            Some(i) => {
                self.documents.set(i, new_result);
                proof {
                    let idx_old = doc_index(old_docs, document_uri@);
                    assert(old_docs[i as int].document_uri@ == document_uri@);
                    if idx_old != i as int {
                        assert(old_docs[idx_old].document_uri@ != old_docs[i as int].document_uri@);
                    }
                    assert(self.documents@[i as int].document_uri@ == document_uri@);
                    assert(doc_has(self.documents@, document_uri@));
                    let idx_new = doc_index(self.documents@, document_uri@);
                    if idx_new != i as int {
                        assert(self.documents@[idx_new] == old_docs[idx_new]);
                        assert(old_docs[idx_new].document_uri@ != old_docs[i as int].document_uri@);
                    }
                }
            },
            None => {
                self.documents.push(new_result);
                proof {
                    let n = old_docs.len() as int;
                    assert(self.documents@[n].document_uri@ == document_uri@);
                    assert(doc_has(self.documents@, document_uri@));
                    assert(self.documents@.drop_last() =~= old_docs);
                    let idx_new = doc_index(self.documents@, document_uri@);
                    if idx_new != n {
                        assert(self.documents@[idx_new] == old_docs[idx_new]);
                        assert(doc_has(old_docs, document_uri@));
                    }
                }
            },
        }
        self.next_id = id_counter;
        proof {
            assert forall|i: int, j: int|
                0 <= i < j < self.documents@.len() implies (
            #[trigger] self.documents@[i]).document_uri@ != (
            #[trigger] self.documents@[j]).document_uri@ by {
                if i < old_docs.len() && j < old_docs.len() {
                    if found is Some {
                        let fi = found->0 as int;
                        if i != fi && j != fi {
                            assert(self.documents@[i] == old_docs[i]);
                            assert(self.documents@[j] == old_docs[j]);
                        } else if i == fi {
                            assert(self.documents@[j] == old_docs[j]);
                            assert(old_docs[j].document_uri@ != old_docs[fi].document_uri@);
                        } else {
                            assert(self.documents@[i] == old_docs[i]);
                            assert(old_docs[i].document_uri@ != old_docs[fi].document_uri@);
                        }
                    } else {
                        assert(self.documents@[i] == old_docs[i]);
                        assert(self.documents@[j] == old_docs[j]);
                    }
                } else {
                    assert(found is None && j == old_docs.len());
                    assert(self.documents@[i] == old_docs[i]);
                    assert(!doc_has(old_docs, document_uri@));
                }
            }
            assert forall|i: int|
                0 <= i < self.documents@.len() implies doc_ids_wf(
                #[trigger] self.documents@[i],
                self.next_id,
            ) by {
                let replaced = if found is Some {
                    found->0 as int
                } else {
                    old_docs.len() as int
                };
                if i == replaced {
                    assert(self.documents@[i].diagnostics@ == new_result.diagnostics@);
                } else {
                    assert(self.documents@[i] == old_docs[i]);
                    assert(doc_ids_wf(old_docs[i], first_id));
                }
            }
        }
        Ok(true)
    }
}

/// One quick-fix entry as the editor protocol wants it built: a title naming
/// the replacement, and the edit that applies it over the diagnostic's range.
#[derive(Debug)]
pub struct DocumentLanguageToolCheckQuickFix {
    pub title: String,
    pub start: Position,
    pub end: Position,
    pub new_text: String,
}

/// Build the quick-fix entries of a diagnostic: one per suggested
/// replacement, each replacing the diagnostic's range with the suggestion.
pub fn quick_fixes(diagnostic: &DocumentLanguageToolCheckChunkResult) -> (r: Vec<
    DocumentLanguageToolCheckQuickFix,
>)
    ensures
        r@.len() == diagnostic.code_actions@.len(),
        forall|j: int|
            0 <= j < r@.len() ==> {
                let f = #[trigger] r@[j];
                &&& f.title@ == "Replace with \""@ + diagnostic.code_actions@[j].value@ + "\""@
                &&& f.start == diagnostic.start
                &&& f.end == diagnostic.end
                &&& f.new_text@ == diagnostic.code_actions@[j].value@
            },
{
    let mut r: Vec<DocumentLanguageToolCheckQuickFix> = Vec::new();
    let mut k: usize = 0;
    while k < diagnostic.code_actions.len()
        invariant
            k <= diagnostic.code_actions@.len(),
            r@.len() == k,
            forall|j: int|
                0 <= j < k ==> {
                    let f = #[trigger] r@[j];
                    &&& f.title@ == "Replace with \""@ + diagnostic.code_actions@[j].value@
                        + "\""@
                    &&& f.start == diagnostic.start
                    &&& f.end == diagnostic.end
                    &&& f.new_text@ == diagnostic.code_actions@[j].value@
                },
        decreases diagnostic.code_actions@.len() - k,
    {
        let value = &diagnostic.code_actions[k].value;
        let mut title = "Replace with \"".to_owned();
        title.append(value.as_str());
        title.append("\"");
        r.push(
            DocumentLanguageToolCheckQuickFix {
                title,
                start: diagnostic.start,
                end: diagnostic.end,
                new_text: value.clone(),
            },
        );
        k = k + 1;
    }
    r
}

/// Law: stale-write suppression keeps the newest completed result.  A store
/// holding version `v2` for a document treats a check of any older `v1` as
/// stale — [`record_result`] then returns without touching the store — while
/// a store holding `v1` does not suppress `v2`, whose result then replaces
/// it.  So whichever order the two versions complete in, the store ends up
/// holding `v2`'s result.
pub proof fn lemma_stale_write_suppression(
    docs: Seq<DocumentLanguageToolCheckResult>,
    uri: Seq<char>,
    v1: i32,
    v2: i32,
)
    requires
        v1 < v2,
        forall|i: int, j: int|
            0 <= i < j < docs.len() ==> (#[trigger] docs[i]).document_uri@ != (
            #[trigger] docs[j]).document_uri@,
        doc_has(docs, uri),
        docs[doc_index(docs, uri)].document_version == v2,
    ensures
        stale(docs, uri, v1),
        !stale(docs, uri, v2),
{
    let idx = doc_index(docs, uri);
    assert(0 <= idx < docs.len() && docs[idx].document_uri@ == uri);
    assert(docs[idx].document_version > v1);
    assert forall|i: int|
        0 <= i < docs.len() && docs[i].document_uri@ == uri implies docs[i].document_version
        <= v2 by {
        if i != idx {
            if i < idx {
                assert(docs[i].document_uri@ != docs[idx].document_uri@);
            } else {
                assert(docs[idx].document_uri@ != docs[i].document_uri@);
            }
        }
    }
}

/// Law: an id the store never issued names no diagnostic.  Ids are issued
/// from the counter upwards, so under the store's invariant an id at or above
/// the counter (or below the first id ever issued), or any id under an
/// unknown document, answers nothing.
pub proof fn lemma_unissued_id_unknown(s: DocumentLanguageToolChecker, uri: Seq<char>, id: i64)
    requires
        s.wf(),
        !doc_has(s.documents@, uri) || id >= s.next_id || id < 1,
    ensures
        !has_diagnostic(s.documents@, uri, id),
{
    if doc_has(s.documents@, uri) {
        let idx = doc_index(s.documents@, uri);
        assert(doc_ids_wf(s.documents@[idx], s.next_id));
    }
}

} // verus!
