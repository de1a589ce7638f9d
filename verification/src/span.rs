//! Byte ranges of a line, and the three pieces a range cuts the line into.

use vstd::prelude::*;
use vstd::string::*;
use vstd::utf8::*;

verus! {

/// The byte range `start..end` of a line, as a search reports it.
#[derive(Clone, Copy, Debug, PartialEq, Eq, Structural)]
pub struct Span {
    pub start: usize,
    pub end: usize,
}

impl Span {
    /// The range lies inside `line` and neither end splits a character.
    pub open spec fn fits(self, line: Seq<char>) -> bool {
        let bytes = encode_utf8(line);
        &&& self.start <= self.end
        &&& is_char_boundary(bytes, self.start as int)
        &&& is_char_boundary(bytes, self.end as int)
    }

    /// A fitting span ends no later than the line does.
    pub proof fn lemma_fits_inside(self, line: Seq<char>)
        requires
            self.fits(line),
        ensures
            self.start <= self.end <= encode_utf8(line).len(),
    {
        encode_utf8_valid_utf8(line);
    }

    /// Decides `fits` for a concrete line.
    pub fn fits_in(&self, line: &str) -> (ok: bool)
        ensures
            ok == self.fits(line@),
    {
        self.start <= self.end && line.is_char_boundary(self.start) && line.is_char_boundary(
            self.end,
        )
    }
}

/// The characters that the bytes `from..to` of `line` encode.
pub open spec fn text_between(line: Seq<char>, from: int, to: int) -> Seq<char> {
    decode_utf8(encode_utf8(line).subrange(from, to))
}

/// Everything in front of the span.
pub open spec fn text_before(line: Seq<char>, span: Span) -> Seq<char> {
    text_between(line, 0, span.start as int)
}

/// The text the span covers.
pub open spec fn text_within(line: Seq<char>, span: Span) -> Seq<char> {
    text_between(line, span.start as int, span.end as int)
}

/// Everything behind the span.
pub open spec fn text_after(line: Seq<char>, span: Span) -> Seq<char> {
    text_between(line, span.end as int, encode_utf8(line).len() as int)
}

/// The line with the text under the span exchanged for `replacement`; a span
/// that does not fit leaves the line alone.
pub open spec fn spliced(line: Seq<char>, span: Span, replacement: Seq<char>) -> Seq<char> {
    if span.fits(line) {
        text_before(line, span) + replacement + text_after(line, span)
    } else {
        line
    }
}

/// A character boundary of the whole stays one in the tail that starts at an
/// earlier boundary.
proof fn lemma_boundary_in_tail(bytes: Seq<u8>, start: int, end: int)
    requires
        valid_utf8(bytes),
        0 <= start <= end <= bytes.len(),
        is_char_boundary(bytes, start),
        is_char_boundary(bytes, end),
    ensures
        valid_utf8(bytes.subrange(start, bytes.len() as int)),
        is_char_boundary(bytes.subrange(start, bytes.len() as int), end - start),
{
    let tail = bytes.subrange(start, bytes.len() as int);
    valid_utf8_split(bytes, start);
    if end == bytes.len() {
        is_char_boundary_start_end_of_seq(tail);
    } else {
        is_char_boundary_iff_not_is_continuation_byte(bytes, end);
        is_char_boundary_iff_not_is_continuation_byte(tail, end - start);
    }
}

/// A fitting span cuts the line into three pieces that, put together again,
/// are the line.
pub proof fn lemma_span_parts(line: Seq<char>, span: Span)
    requires
        span.fits(line),
    ensures
        line == text_before(line, span) + text_within(line, span) + text_after(line, span),
{
    let bytes = encode_utf8(line);
    let start = span.start as int;
    let end = span.end as int;
    let tail = bytes.subrange(start, bytes.len() as int);
    span.lemma_fits_inside(line);
    encode_utf8_valid_utf8(line);
    encode_utf8_decode_utf8(line);
    lemma_boundary_in_tail(bytes, start, end);
    decode_utf8_split(bytes, start);
    decode_utf8_split(tail, end - start);
    assert(tail.subrange(0, end - start) == bytes.subrange(start, end));
    assert(tail.subrange(end - start, tail.len() as int) == bytes.subrange(
        end,
        bytes.len() as int,
    ));
    assert(line == decode_utf8(bytes.subrange(0, start)) + (decode_utf8(bytes.subrange(start, end))
        + decode_utf8(bytes.subrange(end, bytes.len() as int))));
}

/// The bytes of two texts joined are the bytes of the first followed by the
/// bytes of the second.
pub proof fn lemma_bytes_of_joined(a: Seq<char>, b: Seq<char>)
    ensures
        encode_utf8(a + b) == encode_utf8(a) + encode_utf8(b),
    decreases a.len(),
{
    if a.len() == 0 {
        assert(a + b == b);
        assert(encode_utf8(a) + encode_utf8(b) == encode_utf8(b));
    } else {
        assert((a + b).drop_first() == a.drop_first() + b);
        lemma_bytes_of_joined(a.drop_first(), b);
        assert(encode_scalar(a[0] as u32) + (encode_utf8(a.drop_first()) + encode_utf8(b)) == (
        encode_scalar(a[0] as u32) + encode_utf8(a.drop_first())) + encode_utf8(b));
    }
}

/// Where one text ends and the next begins, no character is split.
pub proof fn lemma_join_is_boundary(a: Seq<char>, b: Seq<char>)
    ensures
        is_char_boundary(encode_utf8(a + b), encode_utf8(a).len() as int),
{
    let bytes = encode_utf8(a + b);
    let at = encode_utf8(a).len() as int;
    lemma_bytes_of_joined(a, b);
    encode_utf8_valid_utf8(a + b);
    if b.len() == 0 {
        assert(encode_utf8(a) + encode_utf8(b) == encode_utf8(a));
        is_char_boundary_start_end_of_seq(bytes);
    } else {
        encode_utf8_first_scalar(b);
        assert(bytes[at] == encode_utf8(b)[0]);
        is_char_boundary_iff_is_leading_byte(bytes, at);
    }
}

/// In a line put together from three texts, the span of the middle one
/// fits, and cuts the line into those three texts again.
pub proof fn lemma_parts_of_joined(
    prefix: Seq<char>,
    middle: Seq<char>,
    suffix: Seq<char>,
    span: Span,
)
    requires
        span.start == encode_utf8(prefix).len(),
        span.end == span.start + encode_utf8(middle).len(),
    ensures
        span.fits(prefix + middle + suffix),
        text_before(prefix + middle + suffix, span) == prefix,
        text_within(prefix + middle + suffix, span) == middle,
        text_after(prefix + middle + suffix, span) == suffix,
{
    let line = prefix + middle + suffix;
    let bytes = encode_utf8(line);
    assert(line == prefix + (middle + suffix));
    lemma_bytes_of_joined(prefix + middle, suffix);
    lemma_bytes_of_joined(prefix, middle);
    lemma_join_is_boundary(prefix, middle + suffix);
    lemma_join_is_boundary(prefix + middle, suffix);
    assert(bytes.subrange(0, span.start as int) == encode_utf8(prefix));
    assert(bytes.subrange(span.start as int, span.end as int) == encode_utf8(middle));
    assert(bytes.subrange(span.end as int, bytes.len() as int) == encode_utf8(suffix));
    encode_utf8_decode_utf8(prefix);
    encode_utf8_decode_utf8(middle);
    encode_utf8_decode_utf8(suffix);
}

/// Cuts `line` at the two ends of a fitting span.
pub fn cut<'a>(line: &'a str, span: Span) -> (parts: (&'a str, &'a str, &'a str))
    requires
        span.fits(line@),
    ensures
        parts.0@ == text_before(line@, span),
        parts.1@ == text_within(line@, span),
        parts.2@ == text_after(line@, span),
{
    let ghost bytes = encode_utf8(line@);
    proof {
        span.lemma_fits_inside(line@);
        encode_utf8_valid_utf8(line@);
        lemma_boundary_in_tail(bytes, span.start as int, span.end as int);
    }
    let (before, tail) = line.split_at(span.start);
    let (within, after) = tail.split_at(span.end - span.start);
    proof {
        let t = bytes.subrange(span.start as int, bytes.len() as int);
        assert(t.subrange(0, span.end - span.start) == bytes.subrange(
            span.start as int,
            span.end as int,
        ));
        assert(t.subrange(span.end - span.start, t.len() as int) == bytes.subrange(
            span.end as int,
            bytes.len() as int,
        ));
        encode_utf8_decode_utf8(before@);
        encode_utf8_decode_utf8(within@);
        encode_utf8_decode_utf8(after@);
    }
    (before, within, after)
}

/// Exchanges the text under `span` for `replacement` and keeps the text on
/// both sides of it, byte for byte.
pub fn splice(line: &str, span: Span, replacement: &str) -> (out: String)
    ensures
        out@ == spliced(line@, span, replacement@),
{
    if span.fits_in(line) {
        let (before, _within, after) = cut(line, span);
        let mut out = String::from_str(before);
        out.append(replacement);
        out.append(after);
        out
    } else {
        String::from_str(line)
    }
}

} // verus!
