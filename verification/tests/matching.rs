use g1_humongous::matcher::{parse_allocation_bytes, parse_humongous_object_allocation};
use g1_humongous::pattern::{
    allocation_in_group, allocation_in_match,
    parse_humongous_object_allocation_with_regex_captures,
    parse_humongous_object_allocation_with_regex_find,
};

fn request_line(count: &str) -> String {
    format!(
        " 2.756: [G1Ergonomics (Concurrent Cycles) request concurrent cycle initiation, \
         reason: occupancy higher than threshold, occupancy: 58720256 bytes, \
         allocation request: {} bytes, threshold: 47185920 bytes (45.00 %), \
         source: concurrent humongous allocation]",
        count
    )
}

#[test]
fn request_line_yields_its_byte_count() {
    assert_eq!(parse_humongous_object_allocation(&request_line("600000")), Some(600000));
    assert_eq!(parse_humongous_object_allocation(&request_line("3000000")), Some(3000000));
    assert_eq!(parse_humongous_object_allocation(&request_line("20000000")), Some(20000000));
}

#[test]
fn shortest_request_line_yields_its_byte_count() {
    let line = "allocation request: 7 bytes,source: concurrent humongous allocation]";
    assert_eq!(parse_humongous_object_allocation(line), Some(7));
}

#[test]
fn byte_count_may_use_all_64_bits() {
    assert_eq!(
        parse_humongous_object_allocation(&request_line("18446744073709551615")),
        Some(u64::MAX)
    );
}

#[test]
fn byte_count_beyond_64_bits_is_no_match() {
    assert_eq!(parse_humongous_object_allocation(&request_line("18446744073709551616")), None);
    assert_eq!(
        parse_humongous_object_allocation(&request_line("99999999999999999999999999")),
        None
    );
}

#[test]
fn line_without_source_note_is_no_match() {
    let line = " 2.756: [G1Ergonomics allocation request: 600000 bytes, threshold: 47185920 bytes]";
    assert_eq!(parse_humongous_object_allocation(line), None);
}

#[test]
fn source_note_must_end_the_line() {
    let mut line = request_line("600000");
    line.push(' ');
    assert_eq!(parse_humongous_object_allocation(&line), None);
    let mut cut_short = request_line("600000");
    cut_short.pop();
    assert_eq!(parse_humongous_object_allocation(&cut_short), None);
}

#[test]
fn line_without_request_marker_is_no_match() {
    let line = " 2.756: [GC pause, 600000 bytes, source: concurrent humongous allocation]";
    assert_eq!(parse_humongous_object_allocation(line), None);
    assert_eq!(parse_humongous_object_allocation(""), None);
}

#[test]
fn line_without_bytes_marker_is_no_match() {
    let line = "allocation request: 600000 source: concurrent humongous allocation]";
    assert_eq!(parse_humongous_object_allocation(line), None);
}

#[test]
fn unreadable_byte_count_is_no_match() {
    assert_eq!(parse_humongous_object_allocation(&request_line("six")), None);
    assert_eq!(parse_humongous_object_allocation(&request_line("")), None);
    assert_eq!(parse_humongous_object_allocation(&request_line("600 000")), None);
    assert_eq!(parse_humongous_object_allocation(&request_line("-600000")), None);
    assert_eq!(parse_humongous_object_allocation(&request_line("600000.5")), None);
    assert_eq!(parse_humongous_object_allocation(&request_line(" 600000")), None);
}

#[test]
fn byte_count_may_carry_a_plus_sign() {
    assert_eq!(parse_humongous_object_allocation(&request_line("+600000")), Some(600000));
    assert_eq!(parse_humongous_object_allocation(&request_line("+")), None);
}

#[test]
fn first_request_marker_decides() {
    let line = "allocation request: 1 allocation request: 600000 bytes, \
                source: concurrent humongous allocation]";
    assert_eq!(parse_humongous_object_allocation(line), None);
    let line = "allocation request: 600000 bytes, allocation request: 1 bytes, \
                source: concurrent humongous allocation]";
    assert_eq!(parse_humongous_object_allocation(line), Some(600000));
}

#[test]
fn text_beyond_ascii_does_not_disturb_the_match() {
    let line = format!("gr\u{f6}\u{df}e \u{1F600} {}", request_line("750000"));
    assert_eq!(parse_humongous_object_allocation(&line), Some(750000));
}

#[test]
fn bytes_are_matched_as_text_is() {
    let line = request_line("1234567");
    assert_eq!(parse_allocation_bytes(line.as_bytes()), Some(1234567));
    assert_eq!(parse_allocation_bytes(b"allocation request: 12 bytes,"), None);
    assert_eq!(parse_allocation_bytes(&[0xff, 0xfe]), None);
}

#[test]
fn capture_group_yields_the_byte_count() {
    assert_eq!(
        parse_humongous_object_allocation_with_regex_captures(&request_line("600000")),
        Some(600000)
    );
    assert_eq!(
        parse_humongous_object_allocation_with_regex_captures(&request_line("20000000")),
        Some(20000000)
    );
}

#[test]
fn whole_match_yields_the_byte_count() {
    assert_eq!(
        parse_humongous_object_allocation_with_regex_find(&request_line("600000")),
        Some(600000)
    );
    assert_eq!(
        parse_humongous_object_allocation_with_regex_find(&request_line("20000000")),
        Some(20000000)
    );
}

#[test]
fn expression_asks_for_six_digits() {
    let line = request_line("12345");
    assert_eq!(parse_humongous_object_allocation(&line), Some(12345));
    assert_eq!(parse_humongous_object_allocation_with_regex_captures(&line), None);
    assert_eq!(parse_humongous_object_allocation_with_regex_find(&line), None);
}

#[test]
fn expression_needs_the_source_note_at_the_end() {
    let mut line = request_line("600000");
    line.push_str(" and more");
    assert_eq!(parse_humongous_object_allocation_with_regex_captures(&line), None);
    assert_eq!(parse_humongous_object_allocation_with_regex_find(&line), None);
    assert_eq!(parse_humongous_object_allocation_with_regex_captures("no request here"), None);
    assert_eq!(parse_humongous_object_allocation_with_regex_find(""), None);
}

#[test]
fn expression_with_too_large_a_count_is_no_match() {
    let line = request_line("99999999999999999999999999");
    assert_eq!(parse_humongous_object_allocation_with_regex_captures(&line), None);
    assert_eq!(parse_humongous_object_allocation_with_regex_find(&line), None);
}

#[test]
fn three_matchers_agree_on_request_lines() {
    for count in ["524290", "1048576", "1048577", "16777217", "123456789012"] {
        let line = request_line(count);
        let expected = Some(count.parse::<u64>().unwrap());
        assert_eq!(parse_humongous_object_allocation(&line), expected);
        assert_eq!(parse_humongous_object_allocation_with_regex_captures(&line), expected);
        assert_eq!(parse_humongous_object_allocation_with_regex_find(&line), expected);
    }
}

#[test]
fn byte_count_is_read_from_the_span_of_a_match() {
    let line = "xx allocation request: 654321 bytes, source: concurrent humongous allocation]";
    assert_eq!(allocation_in_match(line, (3, line.len())), Some(654321));
    assert_eq!(allocation_in_match(line, (3, 35)), Some(654321));
    assert_eq!(allocation_in_match(line, (3, 34)), None);
    assert_eq!(allocation_in_match(line, (0, line.len())), None);
}

#[test]
fn span_outside_the_line_yields_nothing() {
    let line = "allocation request: 654321 bytes";
    assert_eq!(allocation_in_match(line, (0, line.len())), Some(654321));
    assert_eq!(allocation_in_match(line, (0, line.len() + 1)), None);
    assert_eq!(allocation_in_match(line, (5, 4)), None);
    assert_eq!(allocation_in_group(line, (20, 26)), Some(654321));
    assert_eq!(allocation_in_group(line, (20, 27)), None);
    assert_eq!(allocation_in_group(line, (26, 20)), None);
    assert_eq!(allocation_in_group(line, (20, 99)), None);
    assert_eq!(allocation_in_group(line, (20, 20)), None);
}

#[test]
fn match_shorter_than_the_marker_yields_nothing() {
    let line = "request: 654321 bytes";
    assert_eq!(allocation_in_match(line, (0, line.len())), None);
}
