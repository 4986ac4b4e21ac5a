use rustracing_jaeger::carrier::extract_from_carrier;
use rustracing_jaeger::carrier::header_value;
use rustracing_jaeger::carrier::inject_into_carrier;
use rustracing_jaeger::carrier::parse_header_value;
use rustracing_jaeger::error::ErrorKind;
use rustracing_jaeger::hex::append_hex;
use rustracing_jaeger::hex::digit_of;
use rustracing_jaeger::hex::parse_hex;
use rustracing_jaeger::span::SpanContext;
use rustracing_jaeger::span::TraceId;
use rustracing_jaeger::text_map::TextMap;

fn carrier_with(value: &str) -> TextMap {
    let mut carrier = TextMap::new();
    carrier.set("uber-trace-id", value);
    carrier
}

fn malformed(value: &str) -> bool {
    match extract_from_carrier(&carrier_with(value)) {
        Ok(_) => false,
        Err(error) => error.kind() == ErrorKind::MalformedContext,
    }
}

#[test]
fn inject_writes_one_field_of_four_hexadecimal_parts() {
    let mut carrier = TextMap::new();
    carrier.set("other", "kept");
    let context = SpanContext::new(TraceId::new(0, 0xabc), 0x10, 0x2f, 1);
    inject_into_carrier(&context, &mut carrier);
    assert_eq!(carrier.len(), 2);
    assert_eq!(carrier.get("uber-trace-id"), Some("abc:10:2f:1"));
    assert_eq!(carrier.get("other"), Some("kept"));
}

#[test]
fn inject_replaces_an_earlier_context() {
    let mut carrier = carrier_with("1:2:3:0");
    inject_into_carrier(&SpanContext::new(TraceId::new(0, 5), 6, 0, 0), &mut carrier);
    assert_eq!(carrier.len(), 1);
    assert_eq!(carrier.get("uber-trace-id"), Some("5:6:0:0"));
}

#[test]
fn a_long_trace_id_is_written_with_its_low_half_padded() {
    let context = SpanContext::new(TraceId::new(1, 2), u64::MAX, 0, 0xff);
    assert_eq!(header_value(&context), "10000000000000002:ffffffffffffffff:0:ff");
    let context = SpanContext::new(TraceId::new(u64::MAX, u64::MAX), 1, 1, 0);
    assert_eq!(header_value(&context), "ffffffffffffffffffffffffffffffff:1:1:0");
    let context = SpanContext::new(TraceId::new(0, 0), 0, 0, 0);
    assert_eq!(header_value(&context), "0:0:0:0");
}

#[test]
fn extract_reads_what_inject_wrote() {
    let cases = [
        (TraceId::new(0, 1), 2u64, 0u64, 1u8),
        (TraceId::new(0xdead_beef, 0x0123_4567_89ab_cdef), u64::MAX, 1, 0),
        (TraceId::new(u64::MAX, u64::MAX), u64::MAX, u64::MAX, u8::MAX),
        (TraceId::new(0, 0), 0, 0, 0),
        (TraceId::new(1, 0), 16, 255, 2),
    ];
    for (trace_id, span_id, parent_span_id, flags) in cases {
        let mut context = SpanContext::new(trace_id, span_id, parent_span_id, flags);
        context.set_baggage_item("user", "alice");
        let mut carrier = TextMap::new();
        inject_into_carrier(&context, &mut carrier);
        let extracted = extract_from_carrier(&carrier).unwrap();
        assert_eq!(extracted.trace_id(), trace_id);
        assert_eq!(extracted.span_id(), span_id);
        assert_eq!(extracted.parent_span_id, parent_span_id);
        assert_eq!(extracted.flags(), flags);
        assert_eq!(extracted.is_sampled(), context.is_sampled());
        assert_eq!(extracted.baggage().len(), 0);
    }
}

#[test]
fn extract_reads_either_case_and_leading_zeros() {
    let context = extract_from_carrier(&carrier_with("00AbC:0D:00:01")).unwrap();
    assert_eq!(context.trace_id(), TraceId::new(0, 0xabc));
    assert_eq!(context.span_id(), 13);
    assert_eq!(context.parent_span_id(), None);
    assert_eq!(context.flags(), 1);
    assert!(context.is_sampled());

    let context = parse_header_value("123456789abcdef0fedcba9876543210:a:b:2").unwrap();
    assert_eq!(context.trace_id(), TraceId::new(0x1234_5678_9abc_def0, 0xfedc_ba98_7654_3210));
    assert_eq!(context.trace_id().to_u128(), 0x1234_5678_9abc_def0_fedc_ba98_7654_3210);
    assert_eq!(context.parent_span_id(), Some(11));
    assert!(!context.is_sampled());
}

#[test]
fn a_missing_field_is_malformed() {
    let carrier = TextMap::new();
    assert_eq!(extract_from_carrier(&carrier).unwrap_err().kind(), ErrorKind::MalformedContext);
    let mut carrier = TextMap::new();
    carrier.set("Uber-Trace-Id", "1:2:3:1");
    assert_eq!(extract_from_carrier(&carrier).unwrap_err().kind(), ErrorKind::MalformedContext);
}

#[test]
fn a_wrong_number_of_parts_is_malformed() {
    assert!(malformed(""));
    assert!(malformed("1"));
    assert!(malformed("1:2"));
    assert!(malformed("1:2:3"));
    assert!(malformed("1:2:3:4:5"));
    assert!(malformed("1:2:3:1:"));
    assert!(malformed(":::"));
}

#[test]
fn a_part_that_is_no_hexadecimal_number_is_malformed() {
    assert!(malformed("xyz:2:3:1"));
    assert!(malformed("1:g:3:1"));
    assert!(malformed("1:2:-3:1"));
    assert!(malformed("1:2:3:+1"));
    assert!(malformed("0x1:2:3:1"));
    assert!(malformed(" 1:2:3:1"));
    assert!(malformed("1:2:3:1 "));
    assert!(malformed("1:2:3:\u{e9}"));
    assert!(malformed("\u{ff11}:2:3:1"));
}

#[test]
fn an_empty_or_overlong_part_is_malformed() {
    assert!(malformed(":2:3:1"));
    assert!(malformed("1::3:1"));
    assert!(malformed("1:2::1"));
    assert!(malformed("1:2:3:"));
    assert!(malformed("123456789abcdef0123456789abcdef01:2:3:1"));
    assert!(malformed("1:10000000000000000:3:1"));
    assert!(malformed("1:2:00000000000000003:1"));
    assert!(malformed("1:2:3:100"));
    assert!(!malformed("123456789abcdef0123456789abcdef0:ffffffffffffffff:ffffffffffffffff:ff"));
}

#[test]
fn hexadecimal_numbers_are_read_and_written() {
    assert_eq!(digit_of(b'0'), Some(0));
    assert_eq!(digit_of(b'9'), Some(9));
    assert_eq!(digit_of(b'a'), Some(10));
    assert_eq!(digit_of(b'F'), Some(15));
    assert_eq!(digit_of(b'g'), None);
    assert_eq!(digit_of(b':'), None);
    assert_eq!(digit_of(b'/'), None);
    assert_eq!(digit_of(b'@'), None);
    assert_eq!(digit_of(b'`'), None);

    assert_eq!(parse_hex(b"1f", 2), Some(0x1f));
    assert_eq!(parse_hex(b"1F", 2), Some(0x1f));
    assert_eq!(parse_hex(b"1f", 1), None);
    assert_eq!(parse_hex(b"", 4), None);
    assert_eq!(parse_hex(b"1g", 4), None);
    assert_eq!(parse_hex(b"1f", 0), None);
    assert_eq!(parse_hex(b"ffffffffffffffffffffffffffffffff", 32), Some(u128::MAX));
    assert_eq!(parse_hex(b"00000000000000000000000000000000", 32), Some(0));
    assert_eq!(parse_hex(b"00000000000000000000000000000000", 64), Some(0));
    assert_eq!(parse_hex(b"000000000000000000000000000000000", 64), None);

    let mut text = String::from("id=");
    append_hex(&mut text, 0);
    text.push(',');
    append_hex(&mut text, 0xdead_beef);
    text.push(',');
    append_hex(&mut text, u128::MAX);
    assert_eq!(text, "id=0,deadbeef,ffffffffffffffffffffffffffffffff");
}

#[test]
fn a_text_map_keeps_keys_in_the_order_they_were_first_set() {
    let mut map = TextMap::new();
    assert_eq!(map.len(), 0);
    assert_eq!(map.get("a"), None);
    map.set("a", "1");
    map.set("b", "2");
    map.set("a", "3");
    map.set("", "empty");
    assert_eq!(map.len(), 3);
    assert_eq!(map.entry(0), Some(("a", "3")));
    assert_eq!(map.entry(1), Some(("b", "2")));
    assert_eq!(map.entry(2), Some(("", "empty")));
    assert_eq!(map.entry(3), None);
    assert_eq!(map.get("a"), Some("3"));
    assert_eq!(map.get("b"), Some("2"));
    assert_eq!(map.get(""), Some("empty"));
    assert_eq!(map.get("A"), None);
    let copy = map.clone();
    map.set("b", "changed");
    assert_eq!(copy.get("b"), Some("2"));
    assert_eq!(copy.len(), 3);
}

#[test]
fn trace_ids_are_numbers_of_128_bits() {
    assert_eq!(TraceId::from_u128(0), TraceId::new(0, 0));
    assert_eq!(TraceId::from_u128(u128::MAX), TraceId::new(u64::MAX, u64::MAX));
    assert_eq!(TraceId::from_u128(1 << 64), TraceId::new(1, 0));
    assert_eq!(TraceId::new(2, 3).to_u128(), (2 << 64) + 3);
}
