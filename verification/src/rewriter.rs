//! The rewriter: finds the timestamp in a line, reads it, takes it to the
//! destination time zone and puts the new text where the old one stood.

use crate::error::ConfigError;
use crate::format::{is_offset, tokens, tokens_from};
use crate::instant::Instant;
use crate::outside::{
    canonical_text, compiles, formatted_text, knows_zone, regex_accepts, render_canonical,
    render_format, zone_known,
};
use crate::pattern::{
    instant_of, is_writable, is_zoned, match_of, recognizer_of, well_formed, Pattern,
};
use crate::span::{cut, splice, spliced, text_within, Span};
use vstd::pervasive::unreached;
use vstd::prelude::*;
use vstd::string::*;

verus! {

/// How timestamps are found and how they are written back.
#[derive(Debug)]
pub enum Policy {
    /// Tries the common formats in their order of priority, takes a
    /// timestamp without an offset to be in UTC, and writes RFC 3339.
    AutoDetect,
    /// Finds, reads and writes timestamps in this one format.
    FixedFormat(String),
}

/// A policy, its format as a sequence of characters.
pub enum PolicyView {
    AutoDetect,
    FixedFormat(Seq<char>),
}

impl View for Policy {
    type V = PolicyView;

    open spec fn view(&self) -> PolicyView {
        match self {
            Policy::AutoDetect => PolicyView::AutoDetect,
            Policy::FixedFormat(format) => PolicyView::FixedFormat(format@),
        }
    }
}

/// The formats that auto-detection tries, first to last: RFC 3339, which
/// syslog writes too; date and time with an offset after a blank; RFC 2822;
/// the common log format of web servers; and ISO 8601 without an offset, with
/// `T` and with a blank. Bare counts of seconds are left to a fixed format of
/// `%s`: among the numbers of a log line nothing tells them apart.
pub open spec fn common_formats() -> Seq<Seq<char>> {
    seq![
        "%Y-%m-%dT%H:%M:%S%.f%#z"@,
        "%Y-%m-%d %H:%M:%S%.f %z"@,
        "%a, %d %b %Y %H:%M:%S %z"@,
        "%d/%b/%Y:%H:%M:%S %z"@,
        "%Y-%m-%dT%H:%M:%S%.f"@,
        "%Y-%m-%d %H:%M:%S%.f"@,
    ]
}

/// Whether a format can serve as the one format of a rewriter: it is well
/// formed, can be written as well as read, and its recognizer compiles.
pub open spec fn usable(format: Seq<char>) -> bool {
    well_formed(format) && is_writable(format) && regex_accepts(recognizer_of(format))
}

/// What is wrong with a configuration, if anything. The time zone is looked
/// at first.
pub open spec fn config_error(zone: Seq<char>, policy: PolicyView) -> Option<ConfigError> {
    if !zone_known(zone) {
        Some(ConfigError::UnknownTimezone)
    } else {
        match policy {
            PolicyView::AutoDetect => None,
            PolicyView::FixedFormat(format) => if usable(format) {
                None
            } else {
                Some(ConfigError::MalformedFormat)
            },
        }
    }
}

/// The first of `formats`, from position `k` on, whose text stands in
/// `line`, with the place where it stands.
pub open spec fn first_match(formats: Seq<Seq<char>>, line: Seq<char>, k: int) -> Option<
    (int, Span),
>
    decreases formats.len() - k,
{
    if k < 0 || k >= formats.len() {
        None
    } else {
        match match_of(formats[k], line) {
            Some(span) => Some((k, span)),
            None => first_match(formats, line, k + 1),
        }
    }
}

/// What a rewriter is: a destination and a policy.
pub struct RewriterView {
    pub zone: Seq<char>,
    pub policy: PolicyView,
}

impl RewriterView {
    /// The formats that are tried on a line, in their order.
    pub open spec fn formats(self) -> Seq<Seq<char>> {
        match self.policy {
            PolicyView::AutoDetect => common_formats(),
            PolicyView::FixedFormat(format) => seq![format],
        }
    }

    /// The timestamp of a line: the position of the first format whose text
    /// stands in the line, and the span that the engine reports for it.
    pub open spec fn located(self, line: Seq<char>) -> Option<(int, Span)> {
        first_match(self.formats(), line, 0)
    }

    /// The instant that the timestamp of the line names; `None` when the
    /// line has no timestamp or its text, for all its shape, is not a date.
    pub open spec fn instant(self, line: Seq<char>) -> Option<Instant> {
        match self.located(line) {
            Some((k, span)) => instant_of(self.formats()[k], text_within(line, span)),
            None => None,
        }
    }

    /// The text of an instant on the clocks of the destination: RFC 3339
    /// under auto-detection, the format itself under a fixed format. Instants
    /// outside the years 0000 to 9999 have none.
    pub open spec fn rendered(self, at: Instant) -> Option<Seq<char>> {
        if !at.in_common_years() {
            None
        } else {
            match self.policy {
                PolicyView::AutoDetect => canonical_text(self.zone, at),
                PolicyView::FixedFormat(format) => formatted_text(self.zone, at, format),
            }
        }
    }

    /// The text that takes the place of the timestamp of the line.
    pub open spec fn replacement(self, line: Seq<char>) -> Option<Seq<char>> {
        match self.instant(line) {
            Some(at) => self.rendered(at),
            None => None,
        }
    }

    /// The line with its timestamp taken to the destination; the line
    /// itself when it has no timestamp that can be read and written anew.
    pub open spec fn rewritten(self, line: Seq<char>) -> Seq<char> {
        match (self.located(line), self.replacement(line)) {
            (Some((_, span)), Some(text)) => spliced(line, span, text),
            _ => line,
        }
    }
}

/// Where the timestamp of a line stands and which pattern found it.
#[derive(Clone, Copy, Debug, PartialEq, Eq, Structural)]
pub struct Located {
    /// The bytes of the line that hold the timestamp.
    pub span: Span,
    /// The position, among the patterns of the rewriter, of the one whose
    /// format reads the timestamp.
    pub pattern: usize,
}

/// Rewrites lines for one destination under one policy. Set up once, then
/// only read.
#[derive(Debug)]
pub struct Rewriter {
    zone: String,
    policy: Policy,
    patterns: Vec<Pattern>,
}

impl View for Rewriter {
    type V = RewriterView;

    closed spec fn view(&self) -> RewriterView {
        RewriterView { zone: self.zone@, policy: self.policy@ }
    }
}

/// RFC 3339 is well formed and carries an offset.
proof fn lemma_rfc3339()
    ensures
        well_formed("%Y-%m-%dT%H:%M:%S%.f%#z"@),
        is_zoned("%Y-%m-%dT%H:%M:%S%.f%#z"@),
{
    reveal_strlit("%Y-%m-%dT%H:%M:%S%.f%#z");
    reveal_with_fuel(tokens_from, 16);
    let list = tokens("%Y-%m-%dT%H:%M:%S%.f%#z"@)->0;
    assert(is_offset(list[12]));
}

/// Date, time and an offset after a blank is well formed and carries an offset.
proof fn lemma_spaced_offset()
    ensures
        well_formed("%Y-%m-%d %H:%M:%S%.f %z"@),
        is_zoned("%Y-%m-%d %H:%M:%S%.f %z"@),
{
    reveal_strlit("%Y-%m-%d %H:%M:%S%.f %z");
    reveal_with_fuel(tokens_from, 16);
    let list = tokens("%Y-%m-%d %H:%M:%S%.f %z"@)->0;
    assert(is_offset(list[13]));
}

/// RFC 2822 is well formed and carries an offset.
proof fn lemma_rfc2822()
    ensures
        well_formed("%a, %d %b %Y %H:%M:%S %z"@),
        is_zoned("%a, %d %b %Y %H:%M:%S %z"@),
{
    reveal_strlit("%a, %d %b %Y %H:%M:%S %z");
    reveal_with_fuel(tokens_from, 20);
    let list = tokens("%a, %d %b %Y %H:%M:%S %z"@)->0;
    assert(is_offset(list[15]));
}

/// The common log format is well formed and carries an offset.
proof fn lemma_common_log()
    ensures
        well_formed("%d/%b/%Y:%H:%M:%S %z"@),
        is_zoned("%d/%b/%Y:%H:%M:%S %z"@),
{
    reveal_strlit("%d/%b/%Y:%H:%M:%S %z");
    reveal_with_fuel(tokens_from, 16);
    let list = tokens("%d/%b/%Y:%H:%M:%S %z"@)->0;
    assert(is_offset(list[12]));
}

/// ISO 8601 without an offset is well formed and carries no offset.
proof fn lemma_iso_naive()
    ensures
        well_formed("%Y-%m-%dT%H:%M:%S%.f"@),
        !is_zoned("%Y-%m-%dT%H:%M:%S%.f"@),
{
    reveal_strlit("%Y-%m-%dT%H:%M:%S%.f");
    reveal_with_fuel(tokens_from, 16);
    let list = tokens("%Y-%m-%dT%H:%M:%S%.f"@)->0;
    assert(list.len() == 12);
    assert forall|i: int| 0 <= i < list.len() implies !is_offset(#[trigger] list[i]) by {}
}

/// Date and time with a blank between them is well formed and carries no offset.
proof fn lemma_plain_naive()
    ensures
        well_formed("%Y-%m-%d %H:%M:%S%.f"@),
        !is_zoned("%Y-%m-%d %H:%M:%S%.f"@),
{
    reveal_strlit("%Y-%m-%d %H:%M:%S%.f");
    reveal_with_fuel(tokens_from, 16);
    let list = tokens("%Y-%m-%d %H:%M:%S%.f"@)->0;
    assert(list.len() == 12);
    assert forall|i: int| 0 <= i < list.len() implies !is_offset(#[trigger] list[i]) by {}
}

/// The six formats of auto-detection are well formed.
pub proof fn lemma_common_formats_well_formed()
    ensures
        common_formats().len() == 6,
        forall|k: int| 0 <= k < 6 ==> well_formed(#[trigger] common_formats()[k]),
{
    lemma_rfc3339();
    lemma_spaced_offset();
    lemma_rfc2822();
    lemma_common_log();
    lemma_iso_naive();
    lemma_plain_naive();
}

/// Which of the common formats say how far they are from UTC: the first four
/// do, and their timestamps are read by the offset they give; the last two
/// do not, and their timestamps are read as UTC.
pub proof fn lemma_common_formats_offsets()
    ensures
        is_zoned(common_formats()[0]),
        is_zoned(common_formats()[1]),
        is_zoned(common_formats()[2]),
        is_zoned(common_formats()[3]),
        !is_zoned(common_formats()[4]),
        !is_zoned(common_formats()[5]),
{
    lemma_rfc3339();
    lemma_spaced_offset();
    lemma_rfc2822();
    lemma_common_log();
    lemma_iso_naive();
    lemma_plain_naive();
}

/// The pattern of a format that is known to be well formed.
fn pattern_of(format: &str) -> (pattern: Pattern)
    requires
        well_formed(format@),
    ensures
        pattern@ == format@,
{
    match Pattern::from_format(format) {
        Some(pattern) => pattern,
        None => unreached(),
    }
}

/// The patterns of auto-detection.
fn common_patterns() -> (list: Vec<Pattern>)
    ensures
        list@.len() == common_formats().len(),
        forall|k: int| 0 <= k < list@.len() ==> (#[trigger] list@[k])@ == common_formats()[k],
{
    proof {
        lemma_common_formats_well_formed();
    }
    let mut list: Vec<Pattern> = Vec::new();
    assert(common_formats()[0] == "%Y-%m-%dT%H:%M:%S%.f%#z"@);
    list.push(pattern_of("%Y-%m-%dT%H:%M:%S%.f%#z"));
    assert(common_formats()[1] == "%Y-%m-%d %H:%M:%S%.f %z"@);
    list.push(pattern_of("%Y-%m-%d %H:%M:%S%.f %z"));
    assert(common_formats()[2] == "%a, %d %b %Y %H:%M:%S %z"@);
    list.push(pattern_of("%a, %d %b %Y %H:%M:%S %z"));
    assert(common_formats()[3] == "%d/%b/%Y:%H:%M:%S %z"@);
    list.push(pattern_of("%d/%b/%Y:%H:%M:%S %z"));
    assert(common_formats()[4] == "%Y-%m-%dT%H:%M:%S%.f"@);
    list.push(pattern_of("%Y-%m-%dT%H:%M:%S%.f"));
    assert(common_formats()[5] == "%Y-%m-%d %H:%M:%S%.f"@);
    list.push(pattern_of("%Y-%m-%d %H:%M:%S%.f"));
    list
}

impl Rewriter {
    #[verifier::type_invariant]
    spec fn consistent(self) -> bool {
        let formats = self@.formats();
        &&& self.patterns@.len() == formats.len()
        &&& forall|k: int|
            0 <= k < self.patterns@.len() ==> (#[trigger] self.patterns@[k])@ == formats[k]
    }

    /// A rewriter that detects the common formats and writes RFC 3339.
    pub fn auto_detect(zone: &str) -> (made: Result<Rewriter, ConfigError>)
        ensures
            match made {
                Ok(rewriter) => config_error(zone@, PolicyView::AutoDetect) is None && rewriter@
                    == (RewriterView { zone: zone@, policy: PolicyView::AutoDetect }),
                Err(error) => config_error(zone@, PolicyView::AutoDetect) == Some(error),
            },
    {
        if !knows_zone(zone) {
            return Err(ConfigError::UnknownTimezone);
        }
        Ok(
            Rewriter {
                zone: String::from_str(zone),
                policy: Policy::AutoDetect,
                patterns: common_patterns(),
            },
        )
    }

    /// A rewriter that finds, reads and writes timestamps in `format`.
    pub fn fixed_format(zone: &str, format: &str) -> (made: Result<Rewriter, ConfigError>)
        ensures
            match made {
                Ok(rewriter) => config_error(zone@, PolicyView::FixedFormat(format@)) is None
                    && rewriter@ == (RewriterView {
                    zone: zone@,
                    policy: PolicyView::FixedFormat(format@),
                }),
                Err(error) => config_error(zone@, PolicyView::FixedFormat(format@)) == Some(error),
            },
    {
        if !knows_zone(zone) {
            return Err(ConfigError::UnknownTimezone);
        }
        let pattern = match Pattern::from_format(format) {
            Some(pattern) => pattern,
            None => {
                return Err(ConfigError::MalformedFormat);
            },
        };
        if !pattern.writable() || !compiles(pattern.recognizer()) {
            return Err(ConfigError::MalformedFormat);
        }
        let mut patterns: Vec<Pattern> = Vec::new();
        patterns.push(pattern);
        Ok(
            Rewriter {
                zone: String::from_str(zone),
                policy: Policy::FixedFormat(String::from_str(format)),
                patterns,
            },
        )
    }

    /// The rewriter for a destination and, where one is given, a format:
    /// with a format the policy is the fixed format, without one it is
    /// auto-detection.
    pub fn configure(zone: &str, format: Option<&str>) -> (made: Result<Rewriter, ConfigError>)
        ensures
            match made {
                Ok(rewriter) => config_error(zone@, chosen_policy(format)) is None && rewriter@
                    == (RewriterView { zone: zone@, policy: chosen_policy(format) }),
                Err(error) => config_error(zone@, chosen_policy(format)) == Some(error),
            },
    {
        match format {
            Some(format) => Rewriter::fixed_format(zone, format),
            None => Rewriter::auto_detect(zone),
        }
    }

    /// The name of the destination time zone.
    pub fn zone(&self) -> (name: &str)
        ensures
            name@ == self@.zone,
    {
        self.zone.as_str()
    }

    /// The policy.
    pub fn policy(&self) -> (policy: &Policy)
        ensures
            policy@ == self@.policy,
    {
        &self.policy
    }

    /// The number of patterns that are tried on a line.
    pub fn pattern_count(&self) -> (count: usize)
        ensures
            count == self@.formats().len(),
    {
        proof {
            use_type_invariant(self);
        }
        self.patterns.len()
    }

    /// The pattern at position `k` in the order of priority.
    pub fn pattern(&self, k: usize) -> (pattern: Option<&Pattern>)
        ensures
            match pattern {
                Some(pattern) => k < self@.formats().len() && pattern@ == self@.formats()[k as int],
                None => k >= self@.formats().len(),
            },
    {
        proof {
            use_type_invariant(self);
        }
        if k < self.patterns.len() {
            Some(&self.patterns[k])
        } else {
            None
        }
    }

    /// Finds the timestamp of a line: tries the patterns in their order and
    /// stops at the first whose text stands in the line.
    pub fn locate(&self, line: &str) -> (found: Option<Located>)
        ensures
            match found {
                Some(place) => self@.located(line@) == Some((place.pattern as int, place.span)),
                None => self@.located(line@) is None,
            },
    {
        proof {
            use_type_invariant(self);
        }
        let ghost formats = self@.formats();
        let mut k: usize = 0;
        while k < self.patterns.len()
            invariant
                k <= self.patterns.len(),
                formats == self@.formats(),
                self.patterns@.len() == formats.len(),
                forall|j: int|
                    0 <= j < self.patterns@.len() ==> (#[trigger] self.patterns@[j])@ == formats[j],
                first_match(formats, line@, 0) == first_match(formats, line@, k as int),
            decreases self.patterns.len() - k,
        {
            match self.patterns[k].find_in(line) {
                Some(span) => {
                    return Some(Located { span, pattern: k });
                },
                None => {},
            }
            k = k + 1;
        }
        None
    }

    /// Reads the text at `place`, which is where the timestamp of the line
    /// was found, into the instant it names.
    fn read_at(&self, line: &str, place: Located) -> (at: Option<Instant>)
        requires
            self@.located(line@) == Some((place.pattern as int, place.span)),
        ensures
            at == self@.instant(line@),
    {
        proof {
            use_type_invariant(self);
            lemma_first_match_in_range(self@.formats(), line@, 0);
        }
        let (_before, within, _after) = cut(line, place.span);
        self.patterns[place.pattern].parse(within)
    }

    /// Reads the timestamp of a line into the instant it names.
    pub fn read(&self, line: &str) -> (at: Option<Instant>)
        ensures
            at == self@.instant(line@),
    {
        match self.locate(line) {
            Some(place) => self.read_at(line, place),
            None => None,
        }
    }

    /// Writes an instant as the destination's clocks show it.
    pub fn render(&self, at: Instant) -> (text: Option<String>)
        ensures
            match text {
                Some(written) => self@.rendered(at) == Some(written@),
                None => self@.rendered(at) is None,
            },
    {
        if !at.is_in_common_years() {
            return None;
        }
        match &self.policy {
            Policy::AutoDetect => render_canonical(self.zone.as_str(), at),
            Policy::FixedFormat(format) => render_format(self.zone.as_str(), at, format.as_str()),
        }
    }

    /// Rewrites one line: the first timestamp found in it is exchanged for
    /// the same instant on the clocks of the destination, and the text around
    /// it is kept as it is. A line without a timestamp, or with one that
    /// cannot be read or written, comes back unchanged.
    pub fn rewrite(&self, line: &str) -> (out: String)
        ensures
            out@ == self@.rewritten(line@),
            self@.located(line@) is None ==> out@ == line@,
    {
        let place = match self.locate(line) {
            Some(place) => place,
            None => {
                return String::from_str(line);
            },
        };
        let at = match self.read_at(line, place) {
            Some(at) => at,
            None => {
                return String::from_str(line);
            },
        };
        match self.render(at) {
            Some(text) => splice(line, place.span, text.as_str()),
            None => String::from_str(line),
        }
    }
}

/// The policy that goes with a format or with the lack of one.
pub open spec fn chosen_policy(format: Option<&str>) -> PolicyView {
    match format {
        Some(format) => PolicyView::FixedFormat(format@),
        None => PolicyView::AutoDetect,
    }
}

/// What `first_match` finds is the match of a format at a position from `k`
/// on, and no format between `k` and that position has a match.
pub proof fn lemma_first_match_in_range(formats: Seq<Seq<char>>, line: Seq<char>, k: int)
    requires
        0 <= k,
    ensures
        match first_match(formats, line, k) {
            Some((found, span)) => {
                &&& k <= found < formats.len()
                &&& match_of(formats[found], line) == Some(span)
                &&& span.fits(line)
                &&& forall|j: int| k <= j < found ==> match_of(#[trigger] formats[j], line) is None
            },
            None => forall|j: int|
                k <= j < formats.len() ==> match_of(#[trigger] formats[j], line) is None,
        },
    decreases formats.len() - k,
{
    if k < formats.len() {
        if match_of(formats[k], line) is None {
            lemma_first_match_in_range(formats, line, k + 1);
        }
    }
}

} // verus!
