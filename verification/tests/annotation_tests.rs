use ltlsp::annotation::{add_empty_text, annotate, spans_well_formed, PADDING_LENGTH};
use ltlsp::languagetool::{language_tool_data_json, LanguageToolRequest, LanguageToolText};
use ltlsp::tree_sitter::LanguageSitterResult;

fn segment_bytes(seg: &LanguageToolText) -> &Vec<u8> {
    match seg {
        LanguageToolText::Text(t) => t,
        LanguageToolText::Markup(m) => m,
    }
}

fn total_len(segs: &Vec<LanguageToolText>) -> usize {
    segs.iter().map(|s| segment_bytes(s).len()).sum()
}

fn span(text: &[u8], start: usize, end: usize) -> LanguageSitterResult {
    LanguageSitterResult { text: text[start..end].to_vec(), start_pos: start, end_pos: end }
}

#[test]
fn lengths_sum_to_document_length() {
    // several non-overlapping sorted span lists over the same document
    let text = b"abc def ghi jkl mno";
    let lists: Vec<Vec<(usize, usize)>> = vec![
        vec![],
        vec![(0, 3)],
        vec![(4, 7), (8, 11)],
        vec![(0, 3), (4, 7), (12, 19)],
        vec![(0, 19)],
    ];
    for ranges in lists {
        let spans: Vec<LanguageSitterResult> =
            ranges.iter().map(|&(s, e)| span(text, s, e)).collect();
        assert!(spans_well_formed(&spans, text.len()));
        let mut request = LanguageToolRequest::new("localhost", 8081, "en-AU");
        annotate(&mut request, &spans, text);
        assert_eq!(total_len(&request.document_data.annotation), text.len());
    }
}

#[test]
fn checkable_segments_round_trip_span_text() {
    let text = b"code; // first\nmore; /* second */ end";
    let spans = vec![span(text, 6, 14), span(text, 21, 33)];
    assert!(spans_well_formed(&spans, text.len()));
    let mut request = LanguageToolRequest::new("localhost", 8081, "en-AU");
    annotate(&mut request, &spans, text);
    let checkables: Vec<&Vec<u8>> = request
        .document_data
        .annotation
        .iter()
        .filter_map(|s| match s {
            LanguageToolText::Text(t) => Some(t),
            LanguageToolText::Markup(_) => None,
        })
        .collect();
    assert_eq!(checkables.len(), 2);
    assert_eq!(checkables[0], &spans[0].text);
    assert_eq!(checkables[1], &spans[1].text);
}

#[test]
fn zero_spans_become_chunked_opaque_run() {
    let text = vec![b'x'; 2 * PADDING_LENGTH + 5];
    let spans: Vec<LanguageSitterResult> = Vec::new();
    let mut request = LanguageToolRequest::new("localhost", 8081, "en-AU");
    annotate(&mut request, &spans, &text);
    let segs = &request.document_data.annotation;
    assert_eq!(segs.len(), 3);
    for seg in segs.iter() {
        assert!(matches!(seg, LanguageToolText::Markup(_)));
        assert!(segment_bytes(seg).len() <= PADDING_LENGTH);
        assert!(segment_bytes(seg).iter().all(|&b| b == b'\n'));
    }
    assert_eq!(total_len(segs), text.len());
    assert_eq!(segment_bytes(&segs[0]).len(), PADDING_LENGTH);
    assert_eq!(segment_bytes(&segs[1]).len(), PADDING_LENGTH);
    assert_eq!(segment_bytes(&segs[2]).len(), 5);
}

#[test]
fn exact_chunk_boundary_emits_no_empty_segment() {
    let mut request = LanguageToolRequest::new("localhost", 8081, "en-AU");
    add_empty_text(&mut request, PADDING_LENGTH);
    assert_eq!(request.document_data.annotation.len(), 1);
    assert_eq!(segment_bytes(&request.document_data.annotation[0]).len(), PADDING_LENGTH);
}

#[test]
fn spans_touching_the_edges_leave_no_filler_there() {
    let text = b"lead mid tail";
    // span at byte 0: no leading opaque segment
    let spans = vec![span(text, 0, 4)];
    let mut request = LanguageToolRequest::new("localhost", 8081, "en-AU");
    annotate(&mut request, &spans, text);
    assert!(matches!(request.document_data.annotation[0], LanguageToolText::Text(_)));
    // span at end of document: no trailing opaque segment
    let spans = vec![span(text, 9, 13)];
    let mut request = LanguageToolRequest::new("localhost", 8081, "en-AU");
    annotate(&mut request, &spans, text);
    let last = request.document_data.annotation.last().unwrap();
    assert!(matches!(last, LanguageToolText::Text(_)));
    // whole document checkable: exactly one segment
    let spans = vec![span(text, 0, 13)];
    let mut request = LanguageToolRequest::new("localhost", 8081, "en-AU");
    annotate(&mut request, &spans, text);
    assert_eq!(request.document_data.annotation.len(), 1);
}

#[test]
fn overlapping_or_unsorted_spans_are_rejected() {
    let text = b"abcdefghij";
    let overlapping = vec![span(text, 0, 5), span(text, 4, 8)];
    assert!(!spans_well_formed(&overlapping, text.len()));
    let unsorted = vec![span(text, 6, 8), span(text, 0, 2)];
    assert!(!spans_well_formed(&unsorted, text.len()));
    let past_end = vec![span(text, 0, 2)];
    assert!(!spans_well_formed(&past_end, 1));
}

#[test]
fn data_json_encodes_segments_in_wire_form() {
    let mut request = LanguageToolRequest::new("localhost", 8081, "en-AU");
    request.add_text(b"hi".to_vec());
    request.add_markup(b"\n".to_vec());
    let encoded = language_tool_data_json(&request.document_data);
    let expected = "{\"annotation\":[{\"text\":\"hi\"},{\"markup\":\"\\n\"}]}";
    assert_eq!(String::from_utf8(encoded).unwrap(), expected);
}

#[test]
fn data_json_escapes_quotes_backslashes_and_controls() {
    let mut request = LanguageToolRequest::new("localhost", 8081, "en-AU");
    request.add_text(b"a\"b\\c\td\re\x01f".to_vec());
    let encoded = language_tool_data_json(&request.document_data);
    let expected = "{\"annotation\":[{\"text\":\"a\\\"b\\\\c\\td\\re\\u0001f\"}]}";
    assert_eq!(String::from_utf8(encoded).unwrap(), expected);
}

#[test]
fn data_json_of_empty_annotation_is_an_empty_list() {
    let request = LanguageToolRequest::new("localhost", 8081, "en-AU");
    let encoded = language_tool_data_json(&request.document_data);
    assert_eq!(String::from_utf8(encoded).unwrap(), "{\"annotation\":[]}");
}
