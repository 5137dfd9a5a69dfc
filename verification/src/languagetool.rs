//! The checking-service interface: annotation segments, the request they are
//! collected into, the JSON wire form of the segment list, and the result
//! types the service's answer is translated into.
//!
//! The HTTP round trip itself is the embedding binary's job; it posts the
//! bytes produced here as the request's `data` form field and hands back the
//! decoded matches as plain values.

use vstd::prelude::*;
use vstd::string::StringExecFns;

verus! {

/// One segment of the submitted document: checkable prose, or opaque stand-in
/// bytes that only keep offsets aligned.
#[derive(Debug)]
pub enum LanguageToolText {
    Text(Vec<u8>),
    Markup(Vec<u8>),
}

/// The bytes a segment contributes to the reconstructed document.
pub open spec fn seg_bytes(s: LanguageToolText) -> Seq<u8> {
    match s {
        LanguageToolText::Text(t) => t@,
        LanguageToolText::Markup(m) => m@,
    }
}

/// Total byte length of a segment list: offsets reported by the checking
/// service are measured against this.
pub open spec fn annotation_len(s: Seq<LanguageToolText>) -> int
    decreases s.len(),
{
    if s.len() == 0 {
        0
    } else {
        annotation_len(s.drop_last()) + seg_bytes(s.last()).len()
    }
}

/// The checkable segments of a list, each with the byte offset at which it
/// starts within the reconstructed document.
pub open spec fn checkables(s: Seq<LanguageToolText>) -> Seq<(int, Seq<u8>)>
    decreases s.len(),
{
    if s.len() == 0 {
        Seq::empty()
    } else {
        let pre = checkables(s.drop_last());
        match s.last() {
            LanguageToolText::Text(t) => pre.push((annotation_len(s.drop_last()), t@)),
            LanguageToolText::Markup(_) => pre,
        }
    }
}

/// How a segment list grows under one push.
pub proof fn lemma_annotation_push(s: Seq<LanguageToolText>, x: LanguageToolText)
    ensures
        annotation_len(s.push(x)) == annotation_len(s) + seg_bytes(x).len(),
        x is Text ==> checkables(s.push(x)) == checkables(s).push((annotation_len(s), seg_bytes(x))),
        x is Markup ==> checkables(s.push(x)) == checkables(s),
{
    assert(s.push(x).drop_last() =~= s);
    assert(s.push(x).last() == x);
}

/// The ordered segment list of one check cycle.
#[derive(Debug)]
pub struct LanguageToolDocumentData {
    pub annotation: Vec<LanguageToolText>,
}

/// One request to the checking service: where it listens, the locale code the
/// text is checked as, and the annotated document.
#[derive(Debug)]
pub struct LanguageToolRequest {
    pub server: String,
    pub port: u16,
    pub language: String,
    pub document_data: LanguageToolDocumentData,
}

impl LanguageToolRequest {
    /// An empty request against the given service address and locale.
    pub fn new(server: &str, port: u16, language: &str) -> (r: LanguageToolRequest)
        ensures
            r.server@ == server@,
            r.port == port,
            r.language@ == language@,
            r.document_data.annotation@.len() == 0,
    {
        LanguageToolRequest {
            server: server.to_owned(),
            port,
            language: language.to_owned(),
            document_data: LanguageToolDocumentData { annotation: Vec::new() },
        }
    }

    /// Append a checkable segment.
    pub fn add_text(&mut self, text: Vec<u8>)
        ensures
            final(self).document_data.annotation@ == old(self).document_data.annotation@.push(
                LanguageToolText::Text(text),
            ),
            final(self).server == old(self).server,
            final(self).port == old(self).port,
            final(self).language == old(self).language,
    {
        self.document_data.annotation.push(LanguageToolText::Text(text));
    }

    /// Append an opaque segment.
    pub fn add_markup(&mut self, markup: Vec<u8>)
        ensures
            final(self).document_data.annotation@ == old(self).document_data.annotation@.push(
                LanguageToolText::Markup(markup),
            ),
            final(self).server == old(self).server,
            final(self).port == old(self).port,
            final(self).language == old(self).language,
    {
        self.document_data.annotation.push(LanguageToolText::Markup(markup));
    }
}

/// One suggested replacement of a match.
#[derive(Debug)]
pub struct LanguageToolResultListItem {
    pub value: String,
}

/// One issue the checking service reported: what it says, where it sits in
/// the submitted document (byte offset and length), the rule that fired, and
/// the suggested replacements.
#[derive(Debug)]
pub struct LanguageToolResultMatch {
    pub message: String,
    pub short_message: String,
    pub offset: usize,
    pub length: usize,
    pub rule_id: String,
    pub replacements: Vec<LanguageToolResultListItem>,
}

// ---------------------------------------------------------------------------
// The wire form of the `data` form field: a JSON object holding the ordered
// segment list, `{"annotation":[{"text":"..."},{"markup":"..."}]}`.
// ---------------------------------------------------------------------------

/// A hexadecimal digit, lower case.
pub open spec fn hex_digit(d: u8) -> u8 {
    if d < 10 {
        (48 + d) as u8
    } else {
        (87 + d) as u8
    }
}

/// JSON string escaping of one byte: quote and backslash are escaped, the
/// common control bytes get their short forms, other control bytes the
/// `\u00XX` form, and everything else passes through.
pub open spec fn json_escape_byte(b: u8) -> Seq<u8> {
    if b == 34 {
        seq![92u8, 34u8]
    } else if b == 92 {
        seq![92u8, 92u8]
    } else if b == 10 {
        seq![92u8, 110u8]
    } else if b == 13 {
        seq![92u8, 114u8]
    } else if b == 9 {
        seq![92u8, 116u8]
    } else if b < 32 {
        seq![92u8, 117u8, 48u8, 48u8, hex_digit(b / 16), hex_digit(b % 16)]
    } else {
        seq![b]
    }
}

pub open spec fn json_escape(s: Seq<u8>) -> Seq<u8>
    decreases s.len(),
{
    if s.len() == 0 {
        Seq::empty()
    } else {
        json_escape(s.drop_last()) + json_escape_byte(s.last())
    }
}

/// `{"text":"` respectively `{"markup":"`.
pub open spec fn seg_json_open(s: LanguageToolText) -> Seq<u8> {
    match s {
        LanguageToolText::Text(_) => seq![123u8, 34u8, 116u8, 101u8, 120u8, 116u8, 34u8, 58u8, 34u8],
        LanguageToolText::Markup(_) => seq![
            123u8,
            34u8,
            109u8,
            97u8,
            114u8,
            107u8,
            117u8,
            112u8,
            34u8,
            58u8,
            34u8,
        ],
    }
}

/// The JSON object of one segment.
pub open spec fn seg_json(s: LanguageToolText) -> Seq<u8> {
    seg_json_open(s) + json_escape(seg_bytes(s)) + seq![34u8, 125u8]
}

/// The comma-separated JSON objects of a segment list.
pub open spec fn segs_json(s: Seq<LanguageToolText>) -> Seq<u8>
    decreases s.len(),
{
    if s.len() == 0 {
        Seq::empty()
    } else if s.len() == 1 {
        seg_json(s[0])
    } else {
        segs_json(s.drop_last()) + seq![44u8] + seg_json(s.last())
    }
}

/// `{"annotation":[` ... `]}` around the segment objects.
pub open spec fn annotation_json(s: Seq<LanguageToolText>) -> Seq<u8> {
    seq![
        123u8,
        34u8,
        97u8,
        110u8,
        110u8,
        111u8,
        116u8,
        97u8,
        116u8,
        105u8,
        111u8,
        110u8,
        34u8,
        58u8,
        91u8,
    ] + segs_json(s) + seq![93u8, 125u8]
}

fn hex_digit_exec(d: u8) -> (r: u8)
    requires
        d < 16,
    ensures
        r == hex_digit(d),
{
    if d < 10 {
        48 + d
    } else {
        87 + d
    }
}

fn push_escaped_byte(out: &mut Vec<u8>, b: u8)
    ensures
        final(out)@ == old(out)@ + json_escape_byte(b),
{
    if b == 34 {
        out.push(92);
        out.push(34);
    } else if b == 92 {
        out.push(92);
        out.push(92);
    } else if b == 10 {
        out.push(92);
        out.push(110);
    } else if b == 13 {
        out.push(92);
        out.push(114);
    } else if b == 9 {
        out.push(92);
        out.push(116);
    } else if b < 32 {
        out.push(92);
        out.push(117);
        out.push(48);
        out.push(48);
        out.push(hex_digit_exec(b / 16));
        out.push(hex_digit_exec(b % 16));
    } else {
        out.push(b);
    }
    proof {
        assert(out@ =~= old(out)@ + json_escape_byte(b));
    }
}

fn push_escaped(out: &mut Vec<u8>, data: &[u8])
    ensures
        final(out)@ == old(out)@ + json_escape(data@),
{
    let mut k: usize = 0;
    while k < data.len()
        invariant
            k <= data@.len(),
            out@ == old(out)@ + json_escape(data@.subrange(0, k as int)),
        decreases data@.len() - k,
    {
        let ghost before = data@.subrange(0, k as int);
        push_escaped_byte(out, data[k]);
        proof {
            let after = data@.subrange(0, k + 1 as int);
            assert(after.drop_last() =~= before);
            assert(after.last() == data@[k as int]);
            assert(json_escape(after) == json_escape(before) + json_escape_byte(data@[k as int]));
            assert(out@ =~= old(out)@ + json_escape(after));
        }
        k = k + 1;
    }
    proof {
        assert(data@.subrange(0, data@.len() as int) =~= data@);
    }
}

fn push_seg_json(out: &mut Vec<u8>, seg: &LanguageToolText)
    ensures
        final(out)@ == old(out)@ + seg_json(*seg),
{
    match seg {
        LanguageToolText::Text(t) => {
            out.push(123);
            out.push(34);
            out.push(116);
            out.push(101);
            out.push(120);
            out.push(116);
            out.push(34);
            out.push(58);
            out.push(34);
            proof {
                assert(out@ =~= old(out)@ + seg_json_open(*seg));
            }
            push_escaped(out, t.as_slice());
            out.push(34);
            out.push(125);
            proof {
                assert(out@ =~= old(out)@ + seg_json(*seg));
            }
        },
        LanguageToolText::Markup(m) => {
            out.push(123);
            out.push(34);
            out.push(109);
            out.push(97);
            out.push(114);
            out.push(107);
            out.push(117);
            out.push(112);
            out.push(34);
            out.push(58);
            out.push(34);
            proof {
                assert(out@ =~= old(out)@ + seg_json_open(*seg));
            }
            push_escaped(out, m.as_slice());
            out.push(34);
            out.push(125);
            proof {
                assert(out@ =~= old(out)@ + seg_json(*seg));
            }
        },
    }
}

/// Encode the ordered segment list as the service's `data` JSON document.
pub fn language_tool_data_json(data: &LanguageToolDocumentData) -> (r: Vec<u8>)
    ensures
        r@ == annotation_json(data.annotation@),
{
    let mut out: Vec<u8> = Vec::new();
    out.push(123);
    out.push(34);
    out.push(97);
    out.push(110);
    out.push(110);
    out.push(111);
    out.push(116);
    out.push(97);
    out.push(116);
    out.push(105);
    out.push(111);
    out.push(110);
    out.push(34);
    out.push(58);
    out.push(91);
    let ghost header = out@;
    let mut k: usize = 0;
    while k < data.annotation.len()
        invariant
            k <= data.annotation@.len(),
            out@ == header + segs_json(data.annotation@.subrange(0, k as int)),
        decreases data.annotation@.len() - k,
    {
        let ghost before = data.annotation@.subrange(0, k as int);
        if k > 0 {
            out.push(44);
        }
        push_seg_json(&mut out, &data.annotation[k]);
        proof {
            let after = data.annotation@.subrange(0, k + 1 as int);
            assert(after.drop_last() =~= before);
            assert(after.last() == data.annotation@[k as int]);
            if k == 0 {
                assert(segs_json(after) == seg_json(data.annotation@[0]));
            } else {
                assert(segs_json(after) == segs_json(before) + seq![44u8] + seg_json(
                    data.annotation@[k as int],
                ));
            }
            assert(out@ =~= header + segs_json(after));
        }
        k = k + 1;
    }
    out.push(93);
    out.push(125);
    proof {
        assert(data.annotation@.subrange(0, data.annotation@.len() as int) =~= data.annotation@);
        assert(out@ =~= annotation_json(data.annotation@));
    }
    out
}

// ---------------------------------------------------------------------------
// The service endpoint.
// ---------------------------------------------------------------------------

/// The decimal digit characters of `n`, most significant first.
pub open spec fn dec_chars(n: int) -> Seq<char>
    decreases n,
{
    if n < 10 {
        seq![((48 + if n < 0 { 0int } else { n }) as u8) as char]
    } else {
        dec_chars(n / 10).push(((48 + n % 10) as u8) as char)
    }
}

fn digit_str(d: u8) -> (s: &'static str)
    requires
        d < 10,
    ensures
        s@ == seq![((48 + d) as u8) as char],
{
    proof {
        reveal_strlit("0");
        reveal_strlit("1");
        reveal_strlit("2");
        reveal_strlit("3");
        reveal_strlit("4");
        reveal_strlit("5");
        reveal_strlit("6");
        reveal_strlit("7");
        reveal_strlit("8");
        reveal_strlit("9");
    }
    if d == 0 {
        "0"
    } else if d == 1 {
        "1"
    } else if d == 2 {
        "2"
    } else if d == 3 {
        "3"
    } else if d == 4 {
        "4"
    } else if d == 5 {
        "5"
    } else if d == 6 {
        "6"
    } else if d == 7 {
        "7"
    } else if d == 8 {
        "8"
    } else {
        "9"
    }
}

/// The decimal rendering of a port number.
pub fn u16_decimal(n: u16) -> (s: String)
    ensures
        s@ == dec_chars(n as int),
    decreases n,
{
    if n < 10 {
        digit_str(n as u8).to_owned()
    } else {
        let mut s = u16_decimal(n / 10);
        s.append(digit_str((n % 10) as u8));
        s
    }
}

/// The check endpoint of the service at `server:port`.
pub fn check_url(server: &str, port: u16) -> (url: String)
    ensures
        url@ == "http://"@ + server@ + ":"@ + dec_chars(port as int) + "/v2/check"@,
{
    let mut url = "http://".to_owned();
    url.append(server);
    url.append(":");
    let port_str = u16_decimal(port);
    url.append(port_str.as_str());
    url.append("/v2/check");
    url
}

} // verus!
