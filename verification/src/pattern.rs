//! A pattern: one format, together with the recognizer derived from it.

use crate::format::{
    can_write, carries_offset, has_offset, recognizer, recognizer_text, tokenize, tokens, writable,
};
use crate::instant::Instant;
use crate::outside::{naive_instant, parse_naive, parse_zoned, regex_find, search, zoned_instant};
use crate::span::Span;
use vstd::prelude::*;
use vstd::string::*;

verus! {

/// Whether `format` is one this crate can read: every `%` in it starts a
/// directive that has a shape.
pub open spec fn well_formed(format: Seq<char>) -> bool {
    tokens(format) is Some
}

/// The regular expression that recognizes text written in `format`.
pub open spec fn recognizer_of(format: Seq<char>) -> Seq<char>
    recommends
        well_formed(format),
{
    recognizer(tokens(format)->0)
}

/// Whether text written in `format` says by itself how far it is from UTC.
pub open spec fn is_zoned(format: Seq<char>) -> bool
    recommends
        well_formed(format),
{
    carries_offset(tokens(format)->0)
}

/// Whether a timestamp can be written in `format`, not only read.
pub open spec fn is_writable(format: Seq<char>) -> bool
    recommends
        well_formed(format),
{
    writable(tokens(format)->0)
}

/// Where text in `format` stands in `line`: the match that the engine
/// reports for the recognizer of the format. The engine reports only ranges
/// of the line that split no character; the definition says so too, so that
/// what is proved of a match needs no word of the engine.
pub open spec fn match_of(format: Seq<char>, line: Seq<char>) -> Option<Span> {
    match regex_find(recognizer_of(format), line) {
        Some(span) => if span.fits(line) {
            Some(span)
        } else {
            None
        },
        None => None,
    }
}

/// The instant that `text` names when read under `format`. A format with an
/// offset in it is read by that offset; any other is read as UTC.
pub open spec fn instant_of(format: Seq<char>, text: Seq<char>) -> Option<Instant> {
    if is_zoned(format) {
        zoned_instant(text, format)
    } else {
        naive_instant(text, format)
    }
}

/// A format that has been read and found well formed, with the expression
/// that recognizes its text. The format alone says what a pattern is: the
/// expression and the note on offsets are kept beside it so that they are
/// worked out once.
#[derive(Debug)]
pub struct Pattern {
    format: String,
    recognizer: String,
    zoned: bool,
    writable: bool,
}

impl View for Pattern {
    type V = Seq<char>;

    /// The format.
    closed spec fn view(&self) -> Seq<char> {
        self.format@
    }
}

impl Pattern {
    #[verifier::type_invariant]
    spec fn derived(self) -> bool {
        &&& well_formed(self.format@)
        &&& self.recognizer@ == recognizer_of(self.format@)
        &&& self.zoned == is_zoned(self.format@)
        &&& self.writable == is_writable(self.format@)
    }

    /// Reads `format`; `None` when it is not well formed.
    pub fn from_format(format: &str) -> (made: Option<Pattern>)
        ensures
            match made {
                Some(pattern) => well_formed(format@) && pattern@ == format@,
                None => !well_formed(format@),
            },
    {
        match tokenize(format) {
            None => None,
            Some(list) => {
                let recognizer = recognizer_text(&list);
                let zoned = has_offset(&list);
                let writable = can_write(&list);
                Some(Pattern { format: String::from_str(format), recognizer, zoned, writable })
            },
        }
    }

    /// The format.
    pub fn format(&self) -> (text: &str)
        ensures
            text@ == self@,
            well_formed(self@),
    {
        proof {
            use_type_invariant(self);
        }
        self.format.as_str()
    }

    /// The regular expression that recognizes text in the format.
    pub fn recognizer(&self) -> (text: &str)
        ensures
            text@ == recognizer_of(self@),
    {
        proof {
            use_type_invariant(self);
        }
        self.recognizer.as_str()
    }

    /// Whether the format holds an offset from UTC.
    pub fn zoned(&self) -> (yes: bool)
        ensures
            yes == is_zoned(self@),
    {
        proof {
            use_type_invariant(self);
        }
        self.zoned
    }

    /// Whether a timestamp can be written in the format.
    pub fn writable(&self) -> (yes: bool)
        ensures
            yes == is_writable(self@),
    {
        proof {
            use_type_invariant(self);
        }
        self.writable
    }

    /// Looks for text in this format in `line`.
    pub fn find_in(&self, line: &str) -> (found: Option<Span>)
        ensures
            found == match_of(self@, line@),
    {
        proof {
            use_type_invariant(self);
        }
        search(self.recognizer.as_str(), line)
    }

    /// Reads `text`, all of it, as a timestamp in this format.
    pub fn parse(&self, text: &str) -> (at: Option<Instant>)
        ensures
            at == instant_of(self@, text@),
    {
        proof {
            use_type_invariant(self);
        }
        if self.zoned {
            parse_zoned(text, self.format.as_str())
        } else {
            parse_naive(text, self.format.as_str())
        }
    }
}

} // verus!
