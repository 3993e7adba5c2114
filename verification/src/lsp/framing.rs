//! The `Content-Length` framing that both the MCP and the LSP streams use:
//! a header line, a blank line, then exactly that many bytes of JSON.
use vstd::prelude::*;
use crate::text::{
    append_decimal, chars_of, dec_digits, has_prefix, is_whitespace, lemma_dec_digits_shape,
    law_decimal_reads_back, parse_decimal, parse_unsigned, starts_with, trim, trim_chars, trim_end,
    trim_start, all_digits, is_digit,
};

use crate::json::JsonValue;
use crate::wire::{json_text, render_json};
use vstd::utf8::encode_utf8;

verus! {

/// What a line read where a header is expected turns out to be.
#[derive(PartialEq, Eq, Structural, Clone, Copy, Debug)]
pub enum HeaderLine {
    /// Not a `Content-Length:` line; the reader skips it.
    NotHeader,
    /// A header announcing a body of this many bytes.
    Length(usize),
    /// A `Content-Length:` line whose length does not parse.
    Invalid,
}

pub open spec fn length_prefix() -> Seq<char> {
    "Content-Length:"@
}

/// How a line is read: a line that begins with `Content-Length:` is trimmed,
/// the prefix dropped, the rest trimmed and parsed as a `usize`.
pub open spec fn header_kind(line: Seq<char>) -> HeaderLine {
    if !starts_with(line, length_prefix()) {
        HeaderLine::NotHeader
    } else {
        let t = trim(line);
        match parse_unsigned(trim(t.subrange(15, t.len() as int)), usize::MAX as nat) {
            Some(n) => HeaderLine::Length(n as usize),
            None => HeaderLine::Invalid,
        }
    }
}

/// The header line announcing `n` bytes, as a reader's `read_line` gives it.
pub open spec fn header_line(n: nat) -> Seq<char> {
    "Content-Length: "@ + dec_digits(n) + "\r\n"@
}

/// The header written before a body of `n` bytes: the header line and a
/// blank line.
pub open spec fn frame_header(n: nat) -> Seq<char> {
    header_line(n) + "\r\n"@
}

proof fn lemma_trim_start_stops(s: Seq<char>)
    requires
        s.len() > 0,
        !is_whitespace(s[0]),
    ensures
        trim_start(s) == s,
{
}

proof fn lemma_trim_end_keeps(s: Seq<char>, j: int)
    requires
        0 <= j < s.len(),
        !is_whitespace(s[j]),
    ensures
        j < trim_end(s).len() <= s.len(),
        trim_end(s) == s.take(trim_end(s).len() as int),
    decreases s.len(),
{
    if is_whitespace(s.last()) {
        assert(j < s.len() - 1);
        let t = s.drop_last();
        assert(t[j] == s[j]);
        lemma_trim_end_keeps(t, j);
        assert(t.take(trim_end(t).len() as int) =~= s.take(trim_end(t).len() as int));
    } else {
        assert(s.take(s.len() as int) =~= s);
    }
}

/// Reads a header line.
pub fn read_header_line(line: &str) -> (r: HeaderLine)
    ensures
        r == header_kind(line@),
{
    let cs = chars_of(line);
    let prefix = chars_of("Content-Length:");
    if !has_prefix(cs.as_slice(), prefix.as_slice()) {
        return HeaderLine::NotHeader;
    }
    proof {
        reveal_strlit("Content-Length:");
        assert(prefix@.len() == 15);
        assert(cs@.subrange(0, 15) == prefix@);
        assert(cs@.subrange(0, 15)[0] == cs@[0]);
        assert(cs@.subrange(0, 15)[14] == cs@[14]);
        assert(cs@[0] == 'C');
        assert(cs@[14] == ':');
        lemma_trim_start_stops(cs@);
        lemma_trim_end_keeps(cs@, 14);
    }
    let t = trim_chars(cs.as_slice());
    let rest = slice_from(t.as_slice(), 15);
    let digits = trim_chars(rest.as_slice());
    match parse_decimal(digits.as_slice(), usize::MAX as u64) {
        Some(n) => HeaderLine::Length(n as usize),
        None => HeaderLine::Invalid,
    }
}

/// `s[from..]`.
fn slice_from(s: &[char], from: usize) -> (r: Vec<char>)
    requires
        from <= s@.len(),
    ensures
        r@ == s@.subrange(from as int, s@.len() as int),
{
    let mut r: Vec<char> = Vec::new();
    let mut i: usize = from;
    while i < s.len()
        invariant
            from <= i <= s@.len(),
            r@ == s@.subrange(from as int, i as int),
        decreases s.len() - i,
    {
        r.push(s[i]);
        i = i + 1;
        proof {
            assert(r@ =~= s@.subrange(from as int, i as int));
        }
    }
    r
}

/// The header written before a body of `len` bytes.
pub fn content_length_header(len: usize) -> (r: String)
    ensures
        r@ == frame_header(len as nat),
{
    let mut s = String::from_str("Content-Length: ");
    append_decimal(&mut s, len as u64);
    s.append("\r\n\r\n");
    proof {
        reveal_strlit("\r\n\r\n");
        reveal_strlit("\r\n");
        assert("\r\n\r\n"@ =~= "\r\n"@ + "\r\n"@);
        assert(s@ =~= frame_header(len as nat));
    }
    s
}

/// A framed JSON message: the header for the byte length of the JSON text
/// `serde_json` writes for `v`, then that text.
pub fn frame_json(v: &JsonValue) -> (r: String)
    ensures
        r@ == frame_header(encode_utf8(json_text(v.view())).len()) + json_text(v.view()),
{
    let text = render_json(v);
    let t = text.as_str();
    let n = t.as_bytes().len();
    let mut framed = content_length_header(n);
    framed.append(text.as_str());
    framed
}

/// Law: the header written for a body of `n` bytes reads back as a header
/// announcing exactly `n` bytes.
pub proof fn law_header_reads_back(n: nat)
    requires
        n <= usize::MAX,
    ensures
        header_kind(header_line(n)) == HeaderLine::Length(n as usize),
        frame_header(n).take(header_line(n).len() as int) == header_line(n),
{
    reveal_strlit("Content-Length: ");
    reveal_strlit("Content-Length:");
    reveal_strlit("\r\n");
    lemma_dec_digits_shape(n);
    let d = dec_digits(n);
    let line = header_line(n);
    let p = "Content-Length: "@;
    assert(p.len() == 16);
    assert(line.len() == 16 + d.len() + 2);
    assert(line.subrange(0, 15) =~= length_prefix());
    assert(starts_with(line, length_prefix()));
    assert(line[0] == 'C');
    lemma_trim_start_stops(line);
    // the trailing "\r\n" is whitespace, the last digit is not
    let body = p + d;
    assert(line =~= body.push('\r').push('\n'));
    assert(is_whitespace('\n'));
    assert(is_whitespace('\r'));
    assert(line.drop_last() =~= body.push('\r'));
    assert(body.push('\r').drop_last() =~= body);
    assert(is_digit(d[d.len() - 1]));
    assert(body.last() == d[d.len() - 1]);
    assert(!is_whitespace(body.last()));
    assert(trim_end(body) == body);
    assert(trim_end(body.push('\r')) == body);
    assert(trim_end(line) == body);
    assert(trim(line) == body);
    let rest = body.subrange(15, body.len() as int);
    assert(rest =~= seq![' '] + d);
    assert(is_whitespace(' '));
    assert(rest.drop_first() =~= d);
    assert(is_digit(d[0]));
    assert(!is_whitespace(d[0]));
    lemma_trim_start_stops(d);
    assert(trim_start(rest) == d);
    assert(trim_end(d) == d);
    law_decimal_reads_back(n, usize::MAX as nat);
    assert(frame_header(n) =~= line + "\r\n"@);
    assert(frame_header(n).take(line.len() as int) =~= line);
}

} // verus!
