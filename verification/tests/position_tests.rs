use ltlsp::position::{line_col, Position};

#[test]
fn maps_offsets_within_first_line() {
    let text = b"hello world";
    assert_eq!(line_col(text, 0), Position { line: 0, character: 0 });
    assert_eq!(line_col(text, 5), Position { line: 0, character: 5 });
    assert_eq!(line_col(text, 11), Position { line: 0, character: 11 });
}

#[test]
fn maps_offsets_across_lines() {
    let text = b"ab\ncd\n\nef";
    assert_eq!(line_col(text, 2), Position { line: 0, character: 2 });
    // the byte right after a line break starts the next line
    assert_eq!(line_col(text, 3), Position { line: 1, character: 0 });
    assert_eq!(line_col(text, 5), Position { line: 1, character: 2 });
    assert_eq!(line_col(text, 6), Position { line: 2, character: 0 });
    assert_eq!(line_col(text, 7), Position { line: 3, character: 0 });
    assert_eq!(line_col(text, 9), Position { line: 3, character: 2 });
}

#[test]
fn maps_empty_document() {
    assert_eq!(line_col(b"", 0), Position { line: 0, character: 0 });
}
