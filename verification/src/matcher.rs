//! Recognition of allocation-request lines.
//!
//! A line reports a humongous allocation request when it holds the request
//! marker, ends with the note that names the concurrent humongous
//! allocation as its source, and carries between the marker and the first
//! following `" bytes,"` a numeral that fits in 64 bits. Such a line yields
//! that number. Every other line yields nothing; in particular a line whose
//! numeral cannot be read is passed over like any line that does not match.

use crate::numeral::{all_digits, digits_value, is_digit, numeral_value, parse_u64};
use crate::search::{
    contains, cut, ends_with, first_occurrence, has_suffix, is_first_occurrence,
    lemma_ends_with_tail, lemma_first_occurrence_extends, lemma_first_occurrence_found,
    lemma_first_occurrence_is, occurs_at, split_once,
};
use vstd::prelude::*;
use vstd::utf8::encode_utf8;

verus! {

/// Opens the byte count of an allocation request.
pub const REQUEST_MARKER: &'static str = "allocation request: ";

/// Closes the byte count of an allocation request.
pub const BYTES_MARKER: &'static str = " bytes,";

/// Ends every line that reports a concurrent humongous allocation.
pub const SOURCE_SUFFIX: &'static str = "source: concurrent humongous allocation]";

/// The bytes of [`REQUEST_MARKER`].
pub open spec fn request_marker() -> Seq<u8> {
    encode_utf8(REQUEST_MARKER@)
}

/// The bytes of [`BYTES_MARKER`].
pub open spec fn bytes_marker() -> Seq<u8> {
    encode_utf8(BYTES_MARKER@)
}

/// The bytes of [`SOURCE_SUFFIX`].
pub open spec fn source_suffix() -> Seq<u8> {
    encode_utf8(SOURCE_SUFFIX@)
}

/// The byte count that `line` reports, if it is an allocation-request line.
pub open spec fn allocation_size(line: Seq<u8>) -> Option<u64> {
    match split_once(line, request_marker()) {
        Some((_, rest)) => if ends_with(rest, source_suffix()) {
            match split_once(rest, bytes_marker()) {
                Some((count, _)) => numeral_value(count, u64::MAX),
                None => None,
            }
        } else {
            None
        },
        None => None,
    }
}

/// Reads the byte count of an allocation request from the bytes of a line.
pub fn parse_allocation_bytes(line: &[u8]) -> (r: Option<u64>)
    ensures
        r == allocation_size(line@),
{
    match cut(line, REQUEST_MARKER.as_bytes()) {
        Some((_, rest)) => {
            if has_suffix(rest, SOURCE_SUFFIX.as_bytes()) {
                match cut(rest, BYTES_MARKER.as_bytes()) {
                    Some((count, _)) => parse_u64(count),
                    None => None,
                }
            } else {
                None
            }
        },
        None => None,
    }
}

/// Reads the byte count of an allocation request from a log line.
pub fn parse_humongous_object_allocation(line: &str) -> (r: Option<u64>)
    ensures
        r == allocation_size(encode_utf8(line@)),
{
    parse_allocation_bytes(line.as_bytes())
}

/// The byte-count marker starts with a space, which no digit is.
proof fn lemma_bytes_marker_starts_with_space()
    ensures
        bytes_marker().len() == 7,
        bytes_marker()[0] == 32,
{
    reveal_strlit(" bytes,");
    assert(vstd::utf8::is_ascii_chars(BYTES_MARKER@));
    vstd::utf8::is_ascii_chars_encode_utf8(BYTES_MARKER@);
    assert(BYTES_MARKER@[0] == ' ');
}

/// A well-formed request line yields the number that its digits write.
///
/// The line is any text in which the request marker first occurs at the end
/// of `before`, followed by the digits `count`, the byte-count marker, any
/// text `between`, and the source note at the very end.
pub proof fn lemma_request_line_yields_count(
    before: Seq<u8>,
    count: Seq<u8>,
    between: Seq<u8>,
)
    requires
        first_occurrence(before + request_marker(), request_marker()) == Some(
            before.len() as int,
        ),
        count.len() > 0,
        all_digits(count),
        digits_value(count) <= u64::MAX,
    ensures
        allocation_size(
            before + request_marker() + count + bytes_marker() + between + source_suffix(),
        ) == Some(digits_value(count) as u64),
{
    let marker = request_marker();
    let tail = count + bytes_marker() + between + source_suffix();
    let line = before + marker + count + bytes_marker() + between + source_suffix();
    assert(line =~= (before + marker) + tail);
    lemma_first_occurrence_extends(before + marker, marker, tail);
    lemma_first_occurrence_found(before + marker, marker);
    assert(line.subrange(0, before.len() as int) =~= before);
    assert(line.subrange((before.len() + marker.len()) as int, line.len() as int) =~= tail);
    assert(split_once(line, marker) == Some((before, tail)));

    assert(tail.subrange(tail.len() - source_suffix().len(), tail.len() as int)
        =~= source_suffix());

    lemma_bytes_marker_starts_with_space();
    let n = count.len() as int;
    assert(tail.subrange(n, n + bytes_marker().len() as int) =~= bytes_marker());
    assert forall|j: int| 0 <= j < n implies !occurs_at(tail, bytes_marker(), j) by {
        assert(is_digit(count[j]));
        assert(tail[j] == count[j]);
        if occurs_at(tail, bytes_marker(), j) {
            assert(tail.subrange(j, j + bytes_marker().len() as int)[0] == bytes_marker()[0]);
        }
    }
    lemma_first_occurrence_is(tail, bytes_marker(), n);
    assert(tail.subrange(0, n) =~= count);
    assert(is_digit(count[0]));
}

/// A line that does not end with the source note yields nothing, whatever
/// else it holds.
pub proof fn lemma_unterminated_line_yields_nothing(line: Seq<u8>)
    requires
        !ends_with(line, source_suffix()),
    ensures
        allocation_size(line) is None,
{
    if contains(line, request_marker()) {
        lemma_first_occurrence_found(line, request_marker());
        let i = first_occurrence(line, request_marker())->Some_0;
        let k = i + request_marker().len();
        if ends_with(line.subrange(k, line.len() as int), source_suffix()) {
            lemma_ends_with_tail(line, k, source_suffix());
        }
    }
}

} // verus!
