//! Byte-offset to line/column mapping.
//!
//! Lines are separated by the byte `b'\n'` and counted from zero.  Columns
//! count bytes from the start of the line (UTF-8 byte columns); this is the
//! column unit the diagnostics of this library use throughout.

use vstd::prelude::*;

verus! {

/// A zero-based line/column pair; the column counts bytes within the line.
#[derive(Clone, Copy, Debug, PartialEq, Eq, Structural)]
pub struct Position {
    pub line: u32,
    pub character: u32,
}

pub const LINE_BREAK: u8 = 10;

/// The number of line breaks strictly before `offset`.
pub open spec fn line_of(text: Seq<u8>, offset: int) -> int
    decreases offset,
{
    if offset <= 0 {
        0
    } else {
        line_of(text, offset - 1) + if text[offset - 1] == LINE_BREAK {
            1int
        } else {
            0int
        }
    }
}

/// The byte offset at which the line containing `offset` starts: one past the
/// last line break strictly before `offset`, or the start of the document.
pub open spec fn line_start_of(text: Seq<u8>, offset: int) -> int
    decreases offset,
{
    if offset <= 0 {
        0
    } else if text[offset - 1] == LINE_BREAK {
        offset
    } else {
        line_start_of(text, offset - 1)
    }
}

/// The byte column of `offset` within its line.
pub open spec fn col_of(text: Seq<u8>, offset: int) -> int {
    offset - line_start_of(text, offset)
}

pub proof fn lemma_line_of_bounds(text: Seq<u8>, offset: int)
    requires
        0 <= offset,
    ensures
        0 <= line_of(text, offset) <= offset,
    decreases offset,
{
    if offset > 0 {
        lemma_line_of_bounds(text, offset - 1);
    }
}

pub proof fn lemma_line_start_of_bounds(text: Seq<u8>, offset: int)
    requires
        0 <= offset,
    ensures
        0 <= line_start_of(text, offset) <= offset,
    decreases offset,
{
    if offset > 0 {
        lemma_line_start_of_bounds(text, offset - 1);
    }
}

/// Map a byte offset into `text` to its line/column position.
pub fn line_col(text: &[u8], offset: usize) -> (p: Position)
    requires
        offset <= text@.len(),
        offset <= u32::MAX,
    ensures
        p.line as int == line_of(text@, offset as int),
        p.character as int == col_of(text@, offset as int),
{
    let mut i: usize = 0;
    let mut line: u32 = 0;
    let mut start: usize = 0;
    while i < offset
        invariant
            i <= offset <= text@.len(),
            offset <= u32::MAX,
            line as int == line_of(text@, i as int),
            start as int == line_start_of(text@, i as int),
            start <= i,
        decreases offset - i,
    {
        proof {
            lemma_line_of_bounds(text@, i as int);
        }
        if text[i] == LINE_BREAK {
            line = line + 1;
            start = i + 1;
        }
        i = i + 1;
    }
    Position { line, character: (offset - start) as u32 }
}

} // verus!
