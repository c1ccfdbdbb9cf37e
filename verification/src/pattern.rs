//! The allocation-request line as a regular expression.
//!
//! Two further matchers find the byte count with the `regex` crate: one
//! from the span of the whole match, one from the span of the capture group
//! around the digits. Both compile the expression on every call and are far
//! slower than the substring search of the `matcher` module, which is the
//! one a scan uses; they stand beside it as a second opinion on a line.
//!
//! What the engine reports is named, not described: how a pattern matches
//! is the `regex` crate's business. How a byte count is read out of a
//! reported span is decided here, for every span, also for one that no
//! engine would report.

use crate::numeral::{numeral_value, parse_u64};
use crate::search::{cut, split_once};
use regex::Regex;
use vstd::prelude::*;
use vstd::slice::slice_subrange;
use vstd::utf8::encode_utf8;

verus! {

/// The expression that an allocation-request line matches: the request
/// marker, a byte count of six or more digits in the group `alloc`, and the
/// source note at the end of the line.
pub const RE_ALLOC: &'static str =
    r"allocation request:\s(?P<alloc>\d{6,}) bytes,.*source:\sconcurrent\shumongous\sallocation\]$";

/// The capture group of [`RE_ALLOC`] that holds the byte count.
pub const ALLOC_GROUP: &'static str = "alloc";

/// The word that follows the byte count.
pub const BYTES_WORD: &'static str = " bytes";

/// The number of bytes that a match of [`RE_ALLOC`] holds before the byte
/// count: those of the request marker.
pub const COUNT_OFFSET: usize = 20;

/// The bytes of [`BYTES_WORD`].
pub open spec fn bytes_word() -> Seq<u8> {
    encode_utf8(BYTES_WORD@)
}

/// What the `regex` crate finds for `pattern` in `haystack`: `None` where
/// `Regex::new` rejects the pattern; otherwise what `Regex::find` of the
/// compiled pattern reports, as the byte offsets at which the leftmost match
/// starts and ends.
pub uninterp spec fn regex_find(pattern: Seq<char>, haystack: Seq<char>) -> Option<
    Option<(usize, usize)>,
>;

/// What the `regex` crate captures for `pattern` in `haystack`: `None` where
/// `Regex::new` rejects the pattern; otherwise what `Captures::name` reports
/// for the group `group` of the leftmost match that `Regex::captures` finds,
/// as the byte offsets at which the group starts and ends, and no offsets
/// where nothing matches or the group took no part in the match.
pub uninterp spec fn regex_capture(
    pattern: Seq<char>,
    group: Seq<char>,
    haystack: Seq<char>,
) -> Option<Option<(usize, usize)>>;

/// Compiles `pattern` with `Regex::new` and searches `haystack` with
/// `Regex::find`. The result is what [`regex_find`] names.
#[verifier::external_body]
fn find_span(pattern: &str, haystack: &str) -> (r: Option<Option<(usize, usize)>>)
    ensures
        r == regex_find(pattern@, haystack@),
{
    match Regex::new(pattern) {
        Ok(re) => Some(re.find(haystack).map(|m| (m.start(), m.end()))),
        Err(_) => None,
    }
}

/// Compiles `pattern` with `Regex::new`, searches `haystack` with
/// `Regex::captures` and looks up `group` with `Captures::name`. The result
/// is what [`regex_capture`] names.
#[verifier::external_body]
fn capture_span(pattern: &str, group: &str, haystack: &str) -> (r: Option<
    Option<(usize, usize)>,
>)
    ensures
        r == regex_capture(pattern@, group@, haystack@),
{
    match Regex::new(pattern) {
        Ok(re) => Some(
            re.captures(haystack).and_then(|c| c.name(group)).map(|m| (m.start(), m.end())),
        ),
        Err(_) => None,
    }
}

/// The bytes of `line` from `span.0` up to `span.1`, where these are two
/// offsets into `line` in this order.
pub open spec fn span_bytes(line: Seq<u8>, span: (usize, usize)) -> Option<Seq<u8>> {
    if span.0 <= span.1 <= line.len() {
        Some(line.subrange(span.0 as int, span.1 as int))
    } else {
        None
    }
}

/// The byte count in a whole match that lies at `span` of `line`: the
/// numeral between the first [`COUNT_OFFSET`] bytes of the match and the
/// first [`BYTES_WORD`] in it.
pub open spec fn size_in_match(line: Seq<u8>, span: (usize, usize)) -> Option<u64> {
    match span_bytes(line, span) {
        Some(matched) => match split_once(matched, bytes_word()) {
            Some((head, _)) => if head.len() >= COUNT_OFFSET {
                numeral_value(head.subrange(COUNT_OFFSET as int, head.len() as int), u64::MAX)
            } else {
                None
            },
            None => None,
        },
        None => None,
    }
}

/// The byte count in a capture group that lies at `span` of `line`: the
/// numeral that the group holds.
pub open spec fn size_in_group(line: Seq<u8>, span: (usize, usize)) -> Option<u64> {
    match span_bytes(line, span) {
        Some(digits) => numeral_value(digits, u64::MAX),
        None => None,
    }
}

/// The byte count that the whole-match search yields for `line`.
pub open spec fn size_by_find(line: Seq<char>) -> Option<u64> {
    match regex_find(RE_ALLOC@, line) {
        Some(Some(span)) => size_in_match(encode_utf8(line), span),
        _ => None,
    }
}

/// The byte count that the capture-group search yields for `line`.
pub open spec fn size_by_capture(line: Seq<char>) -> Option<u64> {
    match regex_capture(RE_ALLOC@, ALLOC_GROUP@, line) {
        Some(Some(span)) => size_in_group(encode_utf8(line), span),
        _ => None,
    }
}

/// The part of `line` that lies at `span`.
fn slice_at<'a>(line: &'a [u8], span: (usize, usize)) -> (r: Option<&'a [u8]>)
    ensures
        match r {
            Some(part) => span_bytes(line@, span) == Some(part@),
            None => span_bytes(line@, span) is None,
        },
{
    if span.0 <= span.1 && span.1 <= line.len() {
        Some(slice_subrange(line, span.0, span.1))
    } else {
        None
    }
}

/// Reads the byte count out of a whole match that lies at `span` of `line`.
pub fn allocation_in_match(line: &str, span: (usize, usize)) -> (r: Option<u64>)
    ensures
        r == size_in_match(encode_utf8(line@), span),
{
    match slice_at(line.as_bytes(), span) {
        Some(matched) => match cut(matched, BYTES_WORD.as_bytes()) {
            Some((head, _)) => {
                if head.len() >= COUNT_OFFSET {
                    parse_u64(slice_subrange(head, COUNT_OFFSET, head.len()))
                } else {
                    None
                }
            },
            None => None,
        },
        None => None,
    }
}

/// Reads the byte count out of a capture group that lies at `span` of `line`.
pub fn allocation_in_group(line: &str, span: (usize, usize)) -> (r: Option<u64>)
    ensures
        r == size_in_group(encode_utf8(line@), span),
{
    match slice_at(line.as_bytes(), span) {
        Some(digits) => parse_u64(digits),
        None => None,
    }
}

/// Reads the byte count of an allocation request from a log line by the
/// capture group of [`RE_ALLOC`].
pub fn parse_humongous_object_allocation_with_regex_captures(line: &str) -> (r: Option<u64>)
    ensures
        r == size_by_capture(line@),
{
    match capture_span(RE_ALLOC, ALLOC_GROUP, line) {
        Some(Some(span)) => allocation_in_group(line, span),
        _ => None,
    }
}

/// Reads the byte count of an allocation request from a log line by the
/// whole match of [`RE_ALLOC`].
pub fn parse_humongous_object_allocation_with_regex_find(line: &str) -> (r: Option<u64>)
    ensures
        r == size_by_find(line@),
{
    match find_span(RE_ALLOC, line) {
        Some(Some(span)) => allocation_in_match(line, span),
        _ => None,
    }
}

} // verus!
