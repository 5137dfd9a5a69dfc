//! The annotation builder: rebuild a document as an ordered segment list that
//! preserves every byte length, so that offsets the checking service reports
//! against the submitted document can be mapped back to the original.
//!
//! Gaps between spans (and before/after them) become opaque segments whose
//! bytes are a neutral filler of exactly the gap's length, chunked to a fixed
//! maximum size; each span's own bytes become one checkable segment.

use vstd::prelude::*;

use crate::languagetool::{
    annotation_len, checkables, lemma_annotation_push, seg_bytes, LanguageToolRequest,
    LanguageToolText,
};
use crate::tree_sitter::LanguageSitterResult;

verus! {

/// The filler byte of opaque segments; a neutral whitespace byte.
pub const FILLER_BYTE: u8 = 10;

/// The largest single opaque segment emitted.
pub const PADDING_LENGTH: usize = 4096;

/// `n` filler bytes.
pub open spec fn filler_seq(n: int) -> Seq<u8> {
    Seq::new(n as nat, |i: int| FILLER_BYTE)
}

/// An opaque segment as the builder emits it: filler bytes only, no longer
/// than one chunk.
pub open spec fn is_filler_markup(s: LanguageToolText) -> bool {
    &&& s is Markup
    &&& seg_bytes(s) == filler_seq(seg_bytes(s).len() as int)
    &&& seg_bytes(s).len() <= PADDING_LENGTH
}

/// The span list a document can be rebuilt around: every span fits the
/// document, and the spans are sorted and non-overlapping.
pub open spec fn spans_buildable(spans: Seq<LanguageSitterResult>, text_len: int) -> bool {
    &&& forall|i: int|
        0 <= i < spans.len() ==> (#[trigger] spans[i]).start_pos <= spans[i].end_pos <= text_len
    &&& forall|i: int|
        0 <= i < spans.len() - 1 ==> (#[trigger] spans[i]).end_pos <= spans[i + 1].start_pos
}

/// The checkable segments the builder owes for a span list: one per span, at
/// the span's own byte offset, holding the span's bytes of the document.
pub open spec fn owed_checkables(spans: Seq<LanguageSitterResult>, text: Seq<u8>) -> Seq<
    (int, Seq<u8>),
> {
    Seq::new(
        spans.len(),
        |i: int|
            (
                spans[i].start_pos as int,
                text.subrange(spans[i].start_pos as int, spans[i].end_pos as int),
            ),
    )
}

/// Decide whether a span list is fit for the builder.
pub fn spans_well_formed(spans: &Vec<LanguageSitterResult>, text_len: usize) -> (r: bool)
    ensures
        r == spans_buildable(spans@, text_len as int),
{
    let mut k: usize = 0;
    while k < spans.len()
        invariant
            k <= spans@.len(),
            forall|i: int|
                0 <= i < k ==> (#[trigger] spans@[i]).start_pos <= spans@[i].end_pos <= text_len,
            forall|i: int|
                0 <= i < k && i < spans@.len() - 1 ==> (#[trigger] spans@[i]).end_pos <= spans@[i
                    + 1].start_pos,
        decreases spans@.len() - k,
    {
        if !(spans[k].start_pos <= spans[k].end_pos && spans[k].end_pos <= text_len) {
            return false;
        }
        if k + 1 < spans.len() && spans[k].end_pos > spans[k + 1].start_pos {
            return false;
        }
        k = k + 1;
    }
    true
}

fn make_filler(n: usize) -> (v: Vec<u8>)
    ensures
        v@ == filler_seq(n as int),
{
    let mut v: Vec<u8> = Vec::new();
    let mut k: usize = 0;
    while k < n
        invariant
            k <= n,
            v@ =~= filler_seq(k as int),
        decreases n - k,
    {
        v.push(FILLER_BYTE);
        proof {
            assert(v@ =~= filler_seq(k + 1 as int));
        }
        k = k + 1;
    }
    v
}

/// Append opaque filler of exactly `length` bytes, chunked to at most
/// [`PADDING_LENGTH`] bytes per segment.  The checkable segments are
/// untouched.
pub fn add_empty_text(request: &mut LanguageToolRequest, length: usize)
    ensures
        final(request).server == old(request).server,
        final(request).port == old(request).port,
        final(request).language == old(request).language,
        old(request).document_data.annotation@.is_prefix_of(
            final(request).document_data.annotation@,
        ),
        forall|i: int|
            old(request).document_data.annotation@.len() <= i < final(request).document_data.annotation@.len() ==> is_filler_markup(
                #[trigger] final(request).document_data.annotation@[i],
            ),
        annotation_len(final(request).document_data.annotation@) == annotation_len(
            old(request).document_data.annotation@,
        ) + length,
        checkables(final(request).document_data.annotation@) == checkables(
            old(request).document_data.annotation@,
        ),
{
    let mut remaining: usize = length;
    while remaining > 0
        invariant
            request.server == old(request).server,
            request.port == old(request).port,
            request.language == old(request).language,
            remaining <= length,
            old(request).document_data.annotation@.is_prefix_of(
                request.document_data.annotation@,
            ),
            forall|i: int|
                old(request).document_data.annotation@.len() <= i
                    < request.document_data.annotation@.len() ==> is_filler_markup(
                    #[trigger] request.document_data.annotation@[i],
                ),
            annotation_len(request.document_data.annotation@) == annotation_len(
                old(request).document_data.annotation@,
            ) + (length - remaining),
            checkables(request.document_data.annotation@) == checkables(
                old(request).document_data.annotation@,
            ),
        decreases remaining,
    {
        let chunk = if remaining > PADDING_LENGTH {
            PADDING_LENGTH
        } else {
            remaining
        };
        let filler = make_filler(chunk);
        let ghost before = request.document_data.annotation@;
        let ghost seg = LanguageToolText::Markup(filler);
        request.add_markup(filler);
        proof {
            lemma_annotation_push(before, seg);
            assert(seg_bytes(seg).len() == chunk);
        }
        remaining = remaining - chunk;
    }
}

/// Rebuild the document around its spans: one checkable segment per span, at
/// the span's own offset and with the span's own bytes, opaque filler
/// everywhere else, and the total byte length exactly the document's.
pub fn annotate(request: &mut LanguageToolRequest, spans: &Vec<LanguageSitterResult>, text: &[u8])
    requires
        old(request).document_data.annotation@.len() == 0,
        spans_buildable(spans@, text@.len() as int),
    ensures
        final(request).server == old(request).server,
        final(request).port == old(request).port,
        final(request).language == old(request).language,
        annotation_len(final(request).document_data.annotation@) == text@.len(),
        checkables(final(request).document_data.annotation@) == owed_checkables(spans@, text@),
        forall|i: int|
            0 <= i < final(request).document_data.annotation@.len() ==> (#[trigger] final(request).document_data.annotation@[i]) is Markup ==> is_filler_markup(
                final(request).document_data.annotation@[i],
            ),
{
    let mut last: usize = 0;
    let mut k: usize = 0;
    proof {
        assert(checkables(request.document_data.annotation@) =~= Seq::<(int, Seq<u8>)>::empty());
    }
    while k < spans.len()
        invariant
            spans_buildable(spans@, text@.len() as int),
            request.server == old(request).server,
            request.port == old(request).port,
            request.language == old(request).language,
            k <= spans@.len(),
            k == 0 ==> last == 0,
            k > 0 ==> last == spans@[k - 1].end_pos,
            last <= text@.len(),
            annotation_len(request.document_data.annotation@) == last,
            checkables(request.document_data.annotation@) =~= owed_checkables(
                spans@.subrange(0, k as int),
                text@,
            ),
            forall|i: int|
                0 <= i < request.document_data.annotation@.len() ==> (
                #[trigger] request.document_data.annotation@[i]) is Markup ==> is_filler_markup(
                    request.document_data.annotation@[i],
                ),
        decreases spans@.len() - k,
    {
        let start = spans[k].start_pos;
        let end = spans[k].end_pos;
        proof {
            assert(spans@[k as int].start_pos <= spans@[k as int].end_pos <= text@.len());
            if k > 0 {
                assert(spans@[k - 1].end_pos <= spans@[k as int].start_pos);
            }
        }
        let ghost pre_gap = request.document_data.annotation@;
        if start > last {
            add_empty_text(request, start - last);
            proof {
                assert forall|i: int|
                    0 <= i < request.document_data.annotation@.len() && (
                    #[trigger] request.document_data.annotation@[i]) is Markup implies is_filler_markup(
                    request.document_data.annotation@[i],
                ) by {
                    if i < pre_gap.len() {
                        assert(request.document_data.annotation@.subrange(0, pre_gap.len() as int)[i]
                            == request.document_data.annotation@[i]);
                        assert(request.document_data.annotation@[i] == pre_gap[i]);
                    }
                }
            }
        }
        let ghost before = request.document_data.annotation@;
        let ghost chunk = text@.subrange(start as int, end as int);
        let piece = vstd::slice::slice_to_vec(vstd::slice::slice_subrange(text, start, end));
        let ghost seg = LanguageToolText::Text(piece);
        request.add_text(piece);
        proof {
            lemma_annotation_push(before, seg);
            assert(seg_bytes(seg) == chunk);
            assert(checkables(request.document_data.annotation@) =~= owed_checkables(
                spans@.subrange(0, k + 1 as int),
                text@,
            ));
        }
        last = end;
        k = k + 1;
    }
    let ghost pre_tail = request.document_data.annotation@;
    if last < text.len() {
        add_empty_text(request, text.len() - last);
        proof {
            assert forall|i: int|
                0 <= i < request.document_data.annotation@.len() && (
                #[trigger] request.document_data.annotation@[i]) is Markup implies is_filler_markup(
                request.document_data.annotation@[i],
            ) by {
                if i < pre_tail.len() {
                    assert(request.document_data.annotation@.subrange(0, pre_tail.len() as int)[i]
                        == request.document_data.annotation@[i]);
                    assert(request.document_data.annotation@[i] == pre_tail[i]);
                }
            }
        }
    }
    proof {
        assert(spans@.subrange(0, spans@.len() as int) =~= spans@);
        assert(checkables(final(request).document_data.annotation@) =~= owed_checkables(
            spans@,
            text@,
        ));
    }
}

/// Law: round-trip identity.  For every span list the builder accepts whose
/// spans carry their own document bytes, the checkable segments of the built
/// annotation reconstruct each span exactly: the segment's text equals the
/// span's text and its offset in the submitted document equals the span's
/// start byte.
pub proof fn lemma_checkable_round_trip(
    segments: Seq<LanguageToolText>,
    spans: Seq<LanguageSitterResult>,
    text: Seq<u8>,
)
    requires
        checkables(segments) == owed_checkables(spans, text),
        forall|i: int| 0 <= i < spans.len() ==> crate::tree_sitter::span_wf(#[trigger] spans[i], text),
    ensures
        checkables(segments).len() == spans.len(),
        forall|i: int|
            0 <= i < spans.len() ==> (#[trigger] checkables(segments)[i]).1 == spans[i].text@
                && checkables(segments)[i].0 == spans[i].start_pos as int,
{
    assert forall|i: int|
        0 <= i < spans.len() implies (#[trigger] checkables(segments)[i]).1 == spans[i].text@
        && checkables(segments)[i].0 == spans[i].start_pos as int by {
        assert(owed_checkables(spans, text)[i] == (
            spans[i].start_pos as int,
            text.subrange(spans[i].start_pos as int, spans[i].end_pos as int),
        ));
        assert(crate::tree_sitter::span_wf(spans[i], text));
    }
}

} // verus!
