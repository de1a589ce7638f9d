//! Rewrites the timestamp embedded in a line of text into another time zone,
//! leaving every other character of the line as it was.
//!
//! A [`rewriter::Rewriter`] is set up once, for a destination time zone and a
//! policy, and then rewrites lines one by one. Under auto-detection it tries
//! the common formats of log timestamps in a fixed order and writes RFC 3339;
//! under a fixed format it finds, reads and writes timestamps in that one
//! format. A line without a timestamp, or with text that only looks like one,
//! comes back unchanged: that is no error.
//!
//! The modules, from the ground up:
//! - [`span`]: byte ranges of a line and the splice that exchanges one;
//! - [`instant`]: points in time;
//! - [`format`]: formats, their tokens and the expressions that recognize them;
//! - [`outside`]: the contracts assumed of `regex`, `chrono` and `chrono-tz`;
//! - [`pattern`]: a format ready to find and read timestamps;
//! - [`rewriter`]: the rewriter and what it computes, stated over the above;
//! - [`laws`]: what holds of every rewrite;
//! - [`error`]: what can be wrong with a configuration.

pub mod error;
pub mod format;
pub mod instant;
pub mod laws;
pub mod outside;
pub mod pattern;
pub mod rewriter;
pub mod span;
