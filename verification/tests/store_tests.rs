use ltlsp::annotation::annotate;
use ltlsp::config::LanguageSitterConfigNode;
use ltlsp::document_checker::{quick_fixes, DocumentLanguageToolChecker};
use ltlsp::error::LtlspError;
use ltlsp::languagetool::{
    LanguageToolRequest, LanguageToolResultListItem, LanguageToolResultMatch, LanguageToolText,
};
use ltlsp::manage_service::{LanguageToolInitialisation, LanguageToolRunnerLocal};
use ltlsp::position::Position;
use ltlsp::tree_sitter::{LanguageSitterResult, LanguageSitters};

fn checker() -> DocumentLanguageToolChecker {
    let configs = vec![(
        "rust".to_string(),
        LanguageSitterConfigNode {
            language_library_name: "libtree-sitter-rust".to_string(),
            language_fn_name: "tree_sitter_rust".to_string(),
            file_extensions: vec!["rs".to_string()],
            expressions: vec!["(line_comment) @line".to_string()],
        },
    )];
    let search_path = vec!["/usr/lib/grammars".to_string()];
    let sitters = LanguageSitters::new(&configs, &search_path).unwrap();
    let runner =
        LanguageToolRunnerLocal::new(8081, "en-AU", LanguageToolInitialisation::AlreadyRunning);
    DocumentLanguageToolChecker::new(sitters, runner)
}

fn one_match(offset: usize, length: usize) -> LanguageToolResultMatch {
    LanguageToolResultMatch {
        message: "Possible spelling mistake found.".to_string(),
        short_message: "Spelling mistake".to_string(),
        offset,
        length,
        rule_id: "MORFOLOGIK_RULE_EN_AU".to_string(),
        replacements: vec![LanguageToolResultListItem { value: "hello".to_string() }],
    }
}

#[test]
fn scenario_single_comment_span_maps_offsets_back() {
    // One checkable span over the leading comment, the rest opaque filler of
    // the same byte length; a match over "helo" maps to line 0, bytes 3..7.
    let source = b"// helo wrold\nfn f(){}";
    let spans = vec![LanguageSitterResult {
        text: b"// helo wrold".to_vec(),
        start_pos: 0,
        end_pos: 13,
    }];
    let mut request = LanguageToolRequest::new("localhost", 8081, "en-AU");
    annotate(&mut request, &spans, source);
    let segs = &request.document_data.annotation;
    assert_eq!(segs.len(), 2);
    match &segs[0] {
        LanguageToolText::Text(t) => assert_eq!(t, &b"// helo wrold".to_vec()),
        LanguageToolText::Markup(_) => panic!("expected the span's checkable segment first"),
    }
    match &segs[1] {
        LanguageToolText::Markup(m) => assert_eq!(m.len(), b"\nfn f(){}".len()),
        LanguageToolText::Text(_) => panic!("expected opaque filler after the span"),
    }

    let mut checker = checker();
    let matches = vec![one_match(3, 4)];
    let recorded = checker
        .record_result("rust", "file:///demo.rs", 1, source, &matches)
        .unwrap();
    assert!(recorded);
    let result = checker.get_result("file:///demo.rs").unwrap();
    assert_eq!(result.diagnostics.len(), 1);
    let diagnostic = &result.diagnostics[0];
    assert_eq!(diagnostic.start, Position { line: 0, character: 3 });
    assert_eq!(diagnostic.end, Position { line: 0, character: 7 });
    assert_eq!(diagnostic.code, "MORFOLOGIK_RULE_EN_AU");
    assert_eq!(diagnostic.message, "Possible spelling mistake found.");
    assert_eq!(diagnostic.code_actions.len(), 1);
    assert_eq!(diagnostic.code_actions[0].value, "hello");
}

#[test]
fn older_version_completing_second_is_suppressed() {
    let mut checker = checker();
    let uri = "file:///doc.rs";
    // the newer version's check completes first
    assert!(checker.record_result("rust", uri, 2, b"text v2", &vec![]).unwrap());
    // the older version's result arrives afterwards: suppressed, no side effects
    assert!(checker.should_check(uri, 2));
    assert!(!checker.should_check(uri, 1));
    let recorded = checker
        .record_result("rust", uri, 1, b"text v1", &vec![one_match(0, 2)])
        .unwrap();
    assert!(!recorded);
    let result = checker.get_result(uri).unwrap();
    assert_eq!(result.document_version, 2);
    assert_eq!(result.diagnostics.len(), 0);
}

#[test]
fn newer_version_completing_second_replaces_the_result() {
    let mut checker = checker();
    let uri = "file:///doc.rs";
    assert!(checker.record_result("rust", uri, 1, b"text v1", &vec![]).unwrap());
    assert!(checker.record_result("rust", uri, 2, b"text v2", &vec![one_match(0, 2)]).unwrap());
    let result = checker.get_result(uri).unwrap();
    assert_eq!(result.document_version, 2);
    assert_eq!(result.diagnostics.len(), 1);
}

#[test]
fn equal_version_may_be_rechecked() {
    let mut checker = checker();
    let uri = "file:///doc.rs";
    assert!(checker.record_result("rust", uri, 1, b"text", &vec![]).unwrap());
    assert!(checker.should_check(uri, 1));
    assert!(checker.record_result("rust", uri, 1, b"text", &vec![]).unwrap());
}

#[test]
fn get_diagnostic_unknown_uri_or_unissued_id_is_none() {
    let mut checker = checker();
    let uri = "file:///doc.rs";
    assert!(checker.get_diagnostic(uri, 1).is_none());
    checker
        .record_result("rust", uri, 1, b"some text", &vec![one_match(0, 4)])
        .unwrap();
    let issued = checker.get_result(uri).unwrap().diagnostics[0].id;
    assert!(checker.get_diagnostic(uri, issued).is_some());
    // an id never issued
    assert!(checker.get_diagnostic(uri, issued + 1000).is_none());
    assert!(checker.get_diagnostic(uri, 0).is_none());
    // a known id under an unknown document
    assert!(checker.get_diagnostic("file:///other.rs", issued).is_none());
}

#[test]
fn ids_are_unique_and_ascending_across_documents() {
    let mut checker = checker();
    checker
        .record_result("rust", "file:///a.rs", 1, b"aaaa", &vec![one_match(0, 1), one_match(1, 1)])
        .unwrap();
    checker
        .record_result("rust", "file:///b.rs", 1, b"bbbb", &vec![one_match(0, 1)])
        .unwrap();
    let a = checker.get_result("file:///a.rs").unwrap();
    let b = checker.get_result("file:///b.rs").unwrap();
    let mut ids = vec![a.diagnostics[0].id, a.diagnostics[1].id, b.diagnostics[0].id];
    let original = ids.clone();
    ids.dedup();
    assert_eq!(ids, original);
    assert!(a.diagnostics[0].id < a.diagnostics[1].id);
    assert!(a.diagnostics[1].id < b.diagnostics[0].id);
}

#[test]
fn build_request_rebuilds_accepted_spans_and_rejects_overlap() {
    let checker = checker();
    let source = b"code // note\nmore";
    let spans = vec![LanguageSitterResult { text: b"// note".to_vec(), start_pos: 5, end_pos: 12 }];
    let request = checker.build_request("rust", &spans, source).unwrap();
    assert_eq!(request.server, "localhost");
    assert_eq!(request.port, 8081);
    assert_eq!(request.language, "en-AU");
    let total: usize = request
        .document_data
        .annotation
        .iter()
        .map(|s| match s {
            LanguageToolText::Text(t) => t.len(),
            LanguageToolText::Markup(m) => m.len(),
        })
        .sum();
    assert_eq!(total, source.len());

    let overlapping = vec![
        LanguageSitterResult { text: b"code //".to_vec(), start_pos: 0, end_pos: 7 },
        LanguageSitterResult { text: b"// note".to_vec(), start_pos: 5, end_pos: 12 },
    ];
    let err = checker.build_request("rust", &overlapping, source).unwrap_err();
    assert!(matches!(err, LtlspError::ExtractionError { .. }));
}

#[test]
fn replacing_one_document_leaves_the_others_alone() {
    let mut checker = checker();
    checker
        .record_result("rust", "file:///a.rs", 1, b"aaaa", &vec![one_match(0, 2)])
        .unwrap();
    checker.record_result("rust", "file:///b.rs", 1, b"bbbb", &vec![]).unwrap();
    let a_id = checker.get_result("file:///a.rs").unwrap().diagnostics[0].id;
    // replace b's result; a's stays untouched
    checker
        .record_result("rust", "file:///b.rs", 2, b"bbbb!", &vec![one_match(1, 1)])
        .unwrap();
    let a = checker.get_result("file:///a.rs").unwrap();
    assert_eq!(a.document_version, 1);
    assert_eq!(a.diagnostics.len(), 1);
    assert_eq!(a.diagnostics[0].id, a_id);
    let b = checker.get_result("file:///b.rs").unwrap();
    assert_eq!(b.document_version, 2);
    assert_eq!(b.diagnostics.len(), 1);
}

#[test]
fn out_of_bounds_match_is_malformed_and_writes_nothing() {
    let mut checker = checker();
    let uri = "file:///doc.rs";
    let err = checker
        .record_result("rust", uri, 1, b"tiny", &vec![one_match(3, 5)])
        .unwrap_err();
    assert!(matches!(err, LtlspError::ServiceMalformed { .. }));
    assert!(checker.get_result(uri).is_none());
}

#[test]
fn get_language_answers_for_checked_documents_only() {
    let mut checker = checker();
    assert!(checker.get_language("file:///doc.rs").is_none());
    checker.record_result("rust", "file:///doc.rs", 1, b"text", &vec![]).unwrap();
    assert_eq!(*checker.get_language("file:///doc.rs").unwrap(), "rust");
}

#[test]
fn quick_fixes_name_and_apply_each_replacement() {
    let mut checker = checker();
    let uri = "file:///doc.rs";
    let mut m = one_match(0, 4);
    m.replacements.push(LanguageToolResultListItem { value: "howdy".to_string() });
    checker.record_result("rust", uri, 1, b"some text", &vec![m]).unwrap();
    let diagnostic = &checker.get_result(uri).unwrap().diagnostics[0];
    let fixes = quick_fixes(diagnostic);
    assert_eq!(fixes.len(), 2);
    assert_eq!(fixes[0].title, "Replace with \"hello\"");
    assert_eq!(fixes[0].new_text, "hello");
    assert_eq!(fixes[0].start, diagnostic.start);
    assert_eq!(fixes[0].end, diagnostic.end);
    assert_eq!(fixes[1].title, "Replace with \"howdy\"");
}
