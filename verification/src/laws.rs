//! What holds of every rewrite, proved from the definitions in `rewriter`.

use crate::outside::regex_find;
use crate::pattern::{match_of, recognizer_of};
use crate::rewriter::{lemma_first_match_in_range, RewriterView};
use crate::span::{
    lemma_parts_of_joined, lemma_span_parts, text_after, text_before, text_within, Span,
};
use vstd::prelude::*;
use vstd::utf8::*;

verus! {

/// The text that stands, after the rewrite, where the timestamp of the line
/// stood: the new text where there is one, the old text where the timestamp
/// could not be read or written anew.
pub open spec fn text_in_place(rewriter: RewriterView, line: Seq<char>, span: Span) -> Seq<char> {
    match rewriter.replacement(line) {
        Some(text) => text,
        None => text_within(line, span),
    }
}

/// Where the engine finds no text of any of the rewriter's formats in a
/// line, the line has no timestamp and comes back as it is.
pub proof fn lemma_unmatched_line_unchanged(rewriter: RewriterView, line: Seq<char>)
    requires
        forall|k: int|
            0 <= k < rewriter.formats().len() ==> regex_find(
                recognizer_of(#[trigger] rewriter.formats()[k]),
                line,
            ) is None,
    ensures
        rewriter.located(line) is None,
        rewriter.rewritten(line) == line,
{
    lemma_first_match_in_range(rewriter.formats(), line, 0);
}

/// The timestamp of a line is the match of the first format, in the
/// rewriter's order, that has one. No format in front of it has a match in the
/// line, and the span is the one match that the engine reports for it: the
/// order of the formats decides, not the place in the line.
pub proof fn lemma_first_format_wins(rewriter: RewriterView, line: Seq<char>, k: int, span: Span)
    requires
        rewriter.located(line) == Some((k, span)),
    ensures
        0 <= k < rewriter.formats().len(),
        span.fits(line),
        regex_find(recognizer_of(rewriter.formats()[k]), line) == Some(span),
        forall|j: int| 0 <= j < k ==> match_of(#[trigger] rewriter.formats()[j], line) is None,
{
    lemma_first_match_in_range(rewriter.formats(), line, 0);
}

/// The line is the text before its timestamp, the timestamp and the text
/// after it, and the rewritten line is the same text before, the text now in
/// place of the timestamp, and the same text after. Nothing outside the span
/// changes.
pub proof fn lemma_only_span_changes(rewriter: RewriterView, line: Seq<char>, k: int, span: Span)
    requires
        rewriter.located(line) == Some((k, span)),
    ensures
        line == text_before(line, span) + text_within(line, span) + text_after(line, span),
        rewriter.rewritten(line) == text_before(line, span) + text_in_place(rewriter, line, span)
            + text_after(line, span),
{
    lemma_first_match_in_range(rewriter.formats(), line, 0);
    lemma_span_parts(line, span);
}

/// When the timestamp found in the line `prefix + timestamp + suffix` is that
/// middle part, the rewritten line is `prefix`, the text now in place of the
/// timestamp, and `suffix`. Whatever stands in `suffix`, a second timestamp
/// too, is carried over as it is.
pub proof fn lemma_surroundings_preserved(
    rewriter: RewriterView,
    prefix: Seq<char>,
    timestamp: Seq<char>,
    suffix: Seq<char>,
    k: int,
    span: Span,
)
    requires
        rewriter.located(prefix + timestamp + suffix) == Some((k, span)),
        span.start == encode_utf8(prefix).len(),
        span.end == span.start + encode_utf8(timestamp).len(),
    ensures
        rewriter.rewritten(prefix + timestamp + suffix) == prefix + (match rewriter.replacement(
            prefix + timestamp + suffix,
        ) {
            Some(text) => text,
            None => timestamp,
        }) + suffix,
{
    let line = prefix + timestamp + suffix;
    lemma_parts_of_joined(prefix, timestamp, suffix, span);
    lemma_only_span_changes(rewriter, line, k, span);
}

/// A line whose timestamp already reads exactly as the destination writes
/// its instant comes back unchanged.
pub proof fn lemma_rendered_text_is_stable(
    rewriter: RewriterView,
    line: Seq<char>,
    k: int,
    span: Span,
)
    requires
        rewriter.located(line) == Some((k, span)),
        rewriter.replacement(line) == Some(text_within(line, span)),
    ensures
        rewriter.rewritten(line) == line,
{
    lemma_only_span_changes(rewriter, line, k, span);
}

/// A second pass changes nothing, as long as the first pass wrote text that
/// the rewriter recognizes again: when, in the rewritten line, the timestamp
/// found is the text that was just written and it reads as the instant it
/// was written from, rewriting the rewritten line gives the same line.
pub proof fn lemma_second_pass_changes_nothing(
    rewriter: RewriterView,
    line: Seq<char>,
    k: int,
    span: Span,
)
    requires
        rewriter.replacement(line) is Some,
        rewriter.located(rewriter.rewritten(line)) == Some((k, span)),
        text_within(rewriter.rewritten(line), span) == rewriter.replacement(line)->0,
        rewriter.instant(rewriter.rewritten(line)) == rewriter.instant(line),
    ensures
        rewriter.rewritten(rewriter.rewritten(line)) == rewriter.rewritten(line),
{
    lemma_rendered_text_is_stable(rewriter, rewriter.rewritten(line), k, span);
}

} // verus!
