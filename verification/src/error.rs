//! The error taxonomy of the checking pipeline.

use vstd::prelude::*;

verus! {

/// Everything that can go wrong between receiving a document and storing its
/// diagnostics, plus the one fatal startup condition.
#[derive(Debug)]
pub enum LtlspError {
    /// The language was never configured, so no grammar can be looked up.
    NotInitialised { language: String },
    /// The grammar library for the language could not be loaded; carries the
    /// file paths that were searched.
    GrammarLoadError { language: String, searched: Vec<String> },
    /// The span extractor was handed byte ranges that do not fit the document.
    ExtractionError { language: String },
    /// The checking service could not be reached.
    ServiceUnreachable { message: String },
    /// The checking service answered with a body that does not fit the
    /// document it was asked about.
    ServiceMalformed { message: String },
    /// No way to bring up a checking backend was found; fatal at startup.
    StartupExhausted,
}

} // verus!
