//! What this crate takes on trust: the contracts of the functions it calls in
//! `std`, `regex`, `chrono` and `chrono-tz`. Nothing here is proved; every
//! proof elsewhere in the crate rests on these statements and on nothing else.
//!
//! The searches, parsers and renderers of those crates are far too large to
//! write down. Each gets a name instead, a function of its arguments whose
//! value is whatever the crate computes, and the contracts of this crate say
//! exactly how the outcome of a rewrite hangs on those names.

use crate::instant::Instant;
use crate::span::Span;
use chrono::offset::LocalResult;
use chrono::{DateTime, NaiveDateTime, SecondsFormat, TimeZone};
use chrono_tz::Tz;
use regex::Regex;
use std::str::FromStr;
use vstd::prelude::*;

verus! {

/// `String::push` appends the one character to the end of the string.
pub assume_specification[ String::push ](text: &mut String, ch: char)
    ensures
        final(text)@ == old(text)@.push(ch),
;

/// Whether `Regex::new` compiles `pattern`.
pub uninterp spec fn regex_accepts(pattern: Seq<char>) -> bool;

/// The byte range of the match that `Regex::find` reports for `pattern` in
/// `text`: the leftmost one, by the engine's own rules.
pub uninterp spec fn regex_find(pattern: Seq<char>, text: Seq<char>) -> Option<Span>;

/// The instant that `NaiveDateTime::parse_from_str` reads out of `text`
/// under `format`, the date and time taken as UTC.
pub uninterp spec fn naive_instant(text: Seq<char>, format: Seq<char>) -> Option<Instant>;

/// The instant that `DateTime::parse_from_str` reads out of `text` under
/// `format`, by the offset that the text itself gives.
pub uninterp spec fn zoned_instant(text: Seq<char>, format: Seq<char>) -> Option<Instant>;

/// Whether `chrono-tz` has a time zone of this name.
pub uninterp spec fn zone_known(name: Seq<char>) -> bool;

/// The RFC 3339 text of `at` on the clocks of `zone`, as
/// `DateTime::to_rfc3339_opts` writes it.
pub uninterp spec fn canonical_text(zone: Seq<char>, at: Instant) -> Option<Seq<char>>;

/// The text of `at` on the clocks of `zone` under `format`, as
/// `DateTime::format` writes it.
pub uninterp spec fn formatted_text(zone: Seq<char>, at: Instant, format: Seq<char>) -> Option<
    Seq<char>,
>;

/// Calls `Regex::new` and reports whether the pattern compiled. The answer
/// depends on the pattern alone.
#[verifier::external_body]
pub(crate) fn compiles(pattern: &str) -> (ok: bool)
    ensures
        ok == regex_accepts(pattern@),
{
    Regex::new(pattern).is_ok()
}

/// Compiles `pattern`, calls `Regex::find` on `text` and hands back the byte
/// offsets of the match; `None` when there is no match or the pattern does
/// not compile. The answer depends on the two strings alone. The engine
/// promises of every match that its start is not behind its end and that both
/// fall between characters of the text, which is what `Span::fits` says.
#[verifier::external_body]
pub(crate) fn search(pattern: &str, text: &str) -> (found: Option<Span>)
    ensures
        found == regex_find(pattern@, text@),
        found matches Some(span) ==> span.fits(text@),
{
    let compiled = match Regex::new(pattern) {
        Ok(compiled) => compiled,
        Err(_) => return None,
    };
    match compiled.find(text) {
        Some(found) => Some(Span { start: found.start(), end: found.end() }),
        None => None,
    }
}

/// Calls `NaiveDateTime::parse_from_str` and hands back the date and time
/// it read, taken as UTC, in seconds and nanoseconds since the epoch; `None`
/// when the text does not parse. The answer depends on the two strings alone.
#[verifier::external_body]
pub(crate) fn parse_naive(text: &str, format: &str) -> (at: Option<Instant>)
    ensures
        at == naive_instant(text@, format@),
{
    match NaiveDateTime::parse_from_str(text, format) {
        Ok(read) => {
            let utc = read.and_utc();
            Some(Instant { secs: utc.timestamp(), nanos: utc.timestamp_subsec_nanos() })
        },
        Err(_) => None,
    }
}

/// Calls `DateTime::parse_from_str`, which asks the text for an offset from
/// UTC, and hands back the instant it read in seconds and nanoseconds since
/// the epoch; `None` when the text does not parse. The answer depends on the
/// two strings alone.
#[verifier::external_body]
pub(crate) fn parse_zoned(text: &str, format: &str) -> (at: Option<Instant>)
    ensures
        at == zoned_instant(text@, format@),
{
    match DateTime::parse_from_str(text, format) {
        Ok(read) => Some(Instant { secs: read.timestamp(), nanos: read.timestamp_subsec_nanos() }),
        Err(_) => None,
    }
}

/// Calls `Tz::from_str`, a lookup in the table of time zones that
/// `chrono-tz` is built with, and reports whether the name is in it.
#[verifier::external_body]
pub(crate) fn knows_zone(name: &str) -> (ok: bool)
    ensures
        ok == zone_known(name@),
{
    Tz::from_str(name).is_ok()
}

/// Takes the instant to the time zone of that name and calls
/// `DateTime::to_rfc3339_opts` on it, asking for as many digits of the second
/// as are not zero and for `Z` at offset zero. `None` when the zone is unknown
/// or `chrono` has no date for the instant. The answer depends on the
/// arguments alone: the rules of the zones are compiled into `chrono-tz`.
/// The instant is kept inside the years 0000 to 9999 because
/// `to_rfc3339_opts` panics once the local time leaves the range of dates
/// `chrono` can hold.
#[verifier::external_body]
pub(crate) fn render_canonical(zone: &str, at: Instant) -> (text: Option<String>)
    requires
        at.in_common_years(),
    ensures
        match text {
            Some(written) => canonical_text(zone@, at) == Some(written@),
            None => canonical_text(zone@, at) is None,
        },
{
    let tz = match Tz::from_str(zone) {
        Ok(tz) => tz,
        Err(_) => return None,
    };
    match tz.timestamp_opt(at.secs, at.nanos) {
        LocalResult::Single(local) => Some(local.to_rfc3339_opts(SecondsFormat::AutoSi, true)),
        _ => None,
    }
}

/// Takes the instant to the time zone of that name and writes it out with
/// `DateTime::format` under `format`. `None` when the zone is unknown,
/// `chrono` has no date for the instant, or the format cannot be written.
/// The answer depends on the arguments alone.
#[verifier::external_body]
pub(crate) fn render_format(zone: &str, at: Instant, format: &str) -> (text: Option<String>)
    requires
        at.in_common_years(),
    ensures
        match text {
            Some(written) => formatted_text(zone@, at, format@) == Some(written@),
            None => formatted_text(zone@, at, format@) is None,
        },
{
    let tz = match Tz::from_str(zone) {
        Ok(tz) => tz,
        Err(_) => return None,
    };
    let local = match tz.timestamp_opt(at.secs, at.nanos) {
        LocalResult::Single(local) => local,
        _ => return None,
    };
    let mut written = String::new();
    match local.format(format).write_to(&mut written) {
        Ok(()) => Some(written),
        Err(_) => None,
    }
}

} // verus!
