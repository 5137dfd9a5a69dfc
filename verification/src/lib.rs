//! Comment-aware annotation and diagnostic mapping for a LanguageTool-backed
//! language server.
//!
//! The library extracts natural-language spans from source text, rebuilds the
//! document as an offset-preserving sequence of checkable and opaque segments,
//! encodes the segment list in the checking service's wire form, maps the
//! service's byte-offset matches back to line/column positions, and keeps a
//! per-document diagnostic store with stale-write suppression.  A small state
//! machine decides how the checking service is brought up and torn down.
//!
//! Network, process and file-system work is left to the embedding binary; the
//! library works on plain values (bytes, strings, integers) and every function
//! here carries a verified contract.

pub mod annotation;
pub mod config;
pub mod document_checker;
pub mod error;
pub mod languagetool;
pub mod manage_service;
pub mod position;
pub mod tree_sitter;
