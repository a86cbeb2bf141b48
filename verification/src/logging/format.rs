//! How a log record is written: where it came from, under which category,
//! and the line that stands in the log.

use crate::text::{chars_of, join_text, has_prefix, skip_chars, starts_with};
use vstd::prelude::*;
use vstd::string::StrSliceExecFns;
use vstd::string::StringExecFns;

verus! {

/// Whether a separator `::` stands at `at`.
pub open spec fn separator_at(text: Seq<char>, at: int) -> bool {
    0 <= at && at + 1 < text.len() && text[at] == ':' && text[at + 1] == ':'
}

/// Where the last segment of `text` begins, for a scan that stands at `at`
/// and has seen the current segment begin at `start`. Separators are taken
/// from the left and do not overlap.
pub open spec fn segment_start(text: Seq<char>, start: int, at: int) -> int
    decreases text.len() - at,
{
    if at < 0 || at + 1 >= text.len() {
        start
    } else if separator_at(text, at) {
        segment_start(text, at + 2, at + 2)
    } else {
        segment_start(text, start, at + 1)
    }
}

/// What follows the last `::` of `text`; all of `text` where it holds
/// none.
pub open spec fn last_segment(text: Seq<char>) -> Seq<char> {
    text.skip(segment_start(text, 0, 0))
}

/// Whether a record with this target was logged by the script side.
pub open spec fn from_script(target: Seq<char>) -> bool {
    has_prefix(target, "ts::"@)
}

/// The side that logged a record: `TS` for the script side, `Rust` for the
/// launcher itself.
pub open spec fn source_of(target: Seq<char>) -> Seq<char> {
    if from_script(target) {
        "TS"@
    } else {
        "Rust"@
    }
}

/// The category of a record: what follows `ts::` for the script side, the
/// last segment of the module path for the launcher itself.
pub open spec fn category_of(target: Seq<char>) -> Seq<char> {
    if from_script(target) {
        target.skip("ts::"@.len() as int)
    } else {
        last_segment(target)
    }
}

/// The line that a record is written as.
pub open spec fn log_line(
    time: Seq<char>,
    level: Seq<char>,
    target: Seq<char>,
    message: Seq<char>,
) -> Seq<char> {
    "["@ + time + "] ["@ + level + "] ["@ + source_of(target) + "] ["@ + category_of(target)
        + "] "@ + message
}

/// The target under which the script side logs in `category`.
pub fn script_target(category: &str) -> (target: String)
    ensures
        target@ == "ts::"@ + category@,
{
    join_text("ts::", category)
}

/// What follows the last `::` of `text`.
pub fn last_segment_of(text: &str) -> (segment: String)
    ensures
        segment@ == last_segment(text@),
{
    let chars = chars_of(text);
    let mut start: usize = 0;
    let mut at: usize = 0;
    while at < chars.len() && at + 1 < chars.len()
        invariant
            start <= at <= chars@.len(),
            chars@ == text@,
            segment_start(text@, 0, 0) == segment_start(text@, start as int, at as int),
        decreases chars.len() - at,
    {
        if chars[at] == ':' && chars[at + 1] == ':' {
            at += 2;
            start = at;
        } else {
            at += 1;
        }
    }
    skip_chars(text, start)
}

/// The side that logged a record and the category of the record, from its
/// target.
pub fn log_origin(target: &str) -> (origin: (&'static str, String))
    ensures
        origin.0@ == source_of(target@),
        origin.1@ == category_of(target@),
{
    if starts_with(target, "ts::") {
        let skipped = "ts::".unicode_len();
        ("TS", skip_chars(target, skipped))
    } else {
        ("Rust", last_segment_of(target))
    }
}

/// Writes the line of a record: time, level, side and category in
/// brackets, then the message.
pub fn format_log_line(time: &str, level: &str, target: &str, message: &str) -> (line: String)
    ensures
        line@ == log_line(time@, level@, target@, message@),
{
    let origin = log_origin(target);
    join_text("[", time).concat("] [").concat(level).concat("] [").concat(origin.0).concat(
        "] [",
    ).concat(origin.1.as_str()).concat("] ").concat(message)
}

} // verus!
