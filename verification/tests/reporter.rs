use rustracing_jaeger::constants::JAEGER_CLIENT_VERSION;
use rustracing_jaeger::constants::MAX_DATAGRAM_SIZE;
use rustracing_jaeger::encoder::encode;
use rustracing_jaeger::encoder::encoding_of;
use rustracing_jaeger::encoder::Protocol;
use rustracing_jaeger::error::ErrorKind;
use rustracing_jaeger::error::TraceError;
use rustracing_jaeger::jaeger::emit_batch;
use rustracing_jaeger::jaeger::Batch;
use rustracing_jaeger::jaeger::SpanRecord;
use rustracing_jaeger::log::Log;
use rustracing_jaeger::reporter::datagram;
use rustracing_jaeger::reporter::JaegerBinaryReporter;
use rustracing_jaeger::reporter::JaegerCompactReporter;
use rustracing_jaeger::reporter::JaegerReporter;
use rustracing_jaeger::sampler::AllSampler;
use rustracing_jaeger::span::FinishedSpan;
use rustracing_jaeger::span::ReferenceKind;
use rustracing_jaeger::span::SpanContext;
use rustracing_jaeger::span::SpanReference;
use rustracing_jaeger::span::TraceId;
use rustracing_jaeger::tag::DoubleValue;
use rustracing_jaeger::tag::Tag;
use rustracing_jaeger::tag::TagValue;
use rustracing_jaeger::time::Timestamp;
use rustracing_jaeger::tracer::Tracer;
use thrift_codec::data::Data;
use thrift_codec::data::Elements;
use thrift_codec::data::Struct;
use thrift_codec::message::Message;
use thrift_codec::message::MessageKind;
use thrift_codec::BinaryDecode;
use thrift_codec::CompactDecode;

fn span_with(tags: Vec<Tag>, logs: Vec<Log>, references: Vec<SpanReference>) -> FinishedSpan {
    FinishedSpan::new(
        SpanContext::new(TraceId::new(7, 9), 11, 5, 1),
        "op",
        Timestamp::from_unix_nanos(1_000_500),
        Timestamp::from_unix_nanos(3_002_499),
        tags,
        logs,
        references,
    )
    .unwrap()
}

fn field<'a>(value: &'a Struct, id: i16) -> Option<&'a Data> {
    value.fields().iter().find(|f| f.id() == id).map(|f| f.data())
}

fn as_struct(data: &Data) -> &Struct {
    match data {
        Data::Struct(value) => value,
        other => panic!("not a struct: {:?}", other),
    }
}

fn as_structs(data: &Data) -> &Vec<Struct> {
    match data {
        Data::List(list) => match &**list {
            Elements::Struct(items) => items,
            other => panic!("not a list of structs: {:?}", other),
        },
        other => panic!("not a list: {:?}", other),
    }
}

fn text(value: &str) -> Data {
    Data::Binary(value.as_bytes().to_vec())
}

fn batch_of(message: &Message) -> &Struct {
    assert_eq!(message.method_name(), "emitBatch");
    assert_eq!(message.kind(), MessageKind::Oneway);
    assert_eq!(message.sequence_id(), 0);
    assert_eq!(message.body().fields().len(), 1);
    as_struct(field(message.body(), 1).unwrap())
}

fn tag_ids(tag: &Struct) -> Vec<i16> {
    tag.fields().iter().map(|f| f.id()).collect()
}

#[test]
fn it_works() {
    let (tracer, mut span_rx) = Tracer::new(AllSampler);
    {
        let span = tracer.span("it_works").start();
        assert!(span.finish());
    }
    let span = span_rx.try_recv().unwrap();
    assert_eq!(span.operation_name(), "it_works");

    let mut reporter = JaegerCompactReporter::new("sample_service");
    reporter.add_service_tag(Tag::string("foo", "bar"));
    let bytes = reporter.report(&[span]).unwrap();
    assert!(!bytes.is_empty());
}

#[test]
fn report_gives_the_batch_that_the_agent_decodes() {
    let mut reporter = JaegerCompactReporter::with_host("svc", None, None);
    reporter.add_service_tag(Tag::string("env", "test"));
    let span = span_with(vec![Tag::string("x", "y")], vec![], vec![]);
    let bytes = reporter.report(&[span]).unwrap();

    let message = Message::compact_decode(&mut &bytes[..]).unwrap();
    let batch = batch_of(&message);
    let process = as_struct(field(batch, 1).unwrap());
    assert_eq!(field(process, 1), Some(&text("svc")));
    let process_tags = as_structs(field(process, 2).unwrap());
    assert_eq!(process_tags.len(), 2);
    assert_eq!(field(&process_tags[0], 1), Some(&text("jaeger.version")));
    assert_eq!(field(&process_tags[0], 3), Some(&text(JAEGER_CLIENT_VERSION)));
    assert_eq!(field(&process_tags[1], 1), Some(&text("env")));
    assert_eq!(field(&process_tags[1], 2), Some(&Data::I32(0)));
    assert_eq!(field(&process_tags[1], 3), Some(&text("test")));

    let spans = as_structs(field(batch, 2).unwrap());
    assert_eq!(spans.len(), 1);
    let tags = as_structs(field(&spans[0], 10).unwrap());
    assert_eq!(tags.len(), 1);
    assert_eq!(field(&tags[0], 1), Some(&text("x")));
    assert_eq!(field(&tags[0], 3), Some(&text("y")));
}

#[test]
fn span_record_has_every_field_of_the_span() {
    let reporter = JaegerCompactReporter::with_host("svc", None, None);
    let span = span_with(vec![], vec![], vec![]);
    let bytes = reporter.report(&[span]).unwrap();
    let message = Message::compact_decode(&mut &bytes[..]).unwrap();
    let spans = as_structs(field(batch_of(&message), 2).unwrap());
    let record = &spans[0];
    assert_eq!(field(record, 1), Some(&Data::I64(9)));
    assert_eq!(field(record, 2), Some(&Data::I64(7)));
    assert_eq!(field(record, 3), Some(&Data::I64(11)));
    assert_eq!(field(record, 4), Some(&Data::I64(5)));
    assert_eq!(field(record, 5), Some(&text("op")));
    assert_eq!(field(record, 6), None);
    assert_eq!(field(record, 7), Some(&Data::I32(1)));
    assert_eq!(field(record, 8), Some(&Data::I64(1_000)));
    assert_eq!(field(record, 9), Some(&Data::I64(2_001)));
    assert_eq!(field(record, 10), None);
    assert_eq!(field(record, 11), None);
    assert_eq!(tag_ids(record), vec![1, 2, 3, 4, 5, 7, 8, 9]);
}

#[test]
fn duration_is_cut_off_not_rounded() {
    let span = FinishedSpan::new(
        SpanContext::new(TraceId::new(0, 1), 1, 0, 1),
        "op",
        Timestamp::from_unix_nanos(999),
        Timestamp::from_unix_nanos(2_998),
        vec![],
        vec![],
        vec![],
    )
    .unwrap();
    assert_eq!(span.duration_micros(), 1);
    assert_eq!(span.start_time().unix_micros(), 0);
    let reporter = JaegerBinaryReporter::with_host("svc", None, None);
    let bytes = reporter.report(&[span]).unwrap();
    let message = Message::binary_decode(&mut &bytes[..]).unwrap();
    let spans = as_structs(field(batch_of(&message), 2).unwrap());
    assert_eq!(field(&spans[0], 8), Some(&Data::I64(0)));
    assert_eq!(field(&spans[0], 9), Some(&Data::I64(1)));
}

#[test]
fn identifiers_keep_their_bits() {
    let span = FinishedSpan::new(
        SpanContext::new(TraceId::new(u64::MAX, 1 << 63), u64::MAX - 1, 3, 3),
        "op",
        Timestamp::from_unix_nanos(0),
        Timestamp::from_unix_nanos(0),
        vec![],
        vec![],
        vec![],
    )
    .unwrap();
    let reporter = JaegerCompactReporter::with_host("svc", None, None);
    let bytes = reporter.report(&[span]).unwrap();
    let message = Message::compact_decode(&mut &bytes[..]).unwrap();
    let spans = as_structs(field(batch_of(&message), 2).unwrap());
    assert_eq!(field(&spans[0], 1), Some(&Data::I64(i64::MIN)));
    assert_eq!(field(&spans[0], 2), Some(&Data::I64(-1)));
    assert_eq!(field(&spans[0], 3), Some(&Data::I64(-2)));
    assert_eq!(field(&spans[0], 7), Some(&Data::I32(3)));
    assert_eq!(field(&spans[0], 9), Some(&Data::I64(0)));
}

#[test]
fn every_type_of_tag_keeps_its_type() {
    let tags = vec![
        Tag::string("s", "text"),
        Tag::double("d", DoubleValue::new(Data::Double(1.5)).unwrap()),
        Tag::bool("b", true),
        Tag::long("l", -42),
        Tag::binary("y", vec![0, 255, 7]),
        Tag::new("n", TagValue::Bool(false)),
    ];
    let reporter = JaegerCompactReporter::with_host("svc", None, None);
    let bytes = reporter.report(&[span_with(tags, vec![], vec![])]).unwrap();
    let message = Message::compact_decode(&mut &bytes[..]).unwrap();
    let spans = as_structs(field(batch_of(&message), 2).unwrap());
    let tags = as_structs(field(&spans[0], 10).unwrap());
    assert_eq!(tags.len(), 6);

    assert_eq!(tag_ids(&tags[0]), vec![1, 2, 3]);
    assert_eq!(field(&tags[0], 2), Some(&Data::I32(0)));
    assert_eq!(field(&tags[0], 3), Some(&text("text")));

    assert_eq!(tag_ids(&tags[1]), vec![1, 2, 4]);
    assert_eq!(field(&tags[1], 2), Some(&Data::I32(1)));
    assert_eq!(field(&tags[1], 4), Some(&Data::Double(1.5)));

    assert_eq!(tag_ids(&tags[2]), vec![1, 2, 5]);
    assert_eq!(field(&tags[2], 2), Some(&Data::I32(2)));
    assert_eq!(field(&tags[2], 5), Some(&Data::Bool(true)));

    assert_eq!(tag_ids(&tags[3]), vec![1, 2, 6]);
    assert_eq!(field(&tags[3], 2), Some(&Data::I32(3)));
    assert_eq!(field(&tags[3], 6), Some(&Data::I64(-42)));

    assert_eq!(tag_ids(&tags[4]), vec![1, 2, 7]);
    assert_eq!(field(&tags[4], 2), Some(&Data::I32(4)));
    assert_eq!(field(&tags[4], 7), Some(&Data::Binary(vec![0, 255, 7])));

    assert_eq!(field(&tags[5], 5), Some(&Data::Bool(false)));
}

#[test]
fn tags_with_the_same_key_are_all_reported_in_order() {
    let tags = vec![Tag::string("k", "first"), Tag::long("k", 2), Tag::string("k", "third")];
    let reporter = JaegerBinaryReporter::with_host("svc", None, None);
    let bytes = reporter.report(&[span_with(tags, vec![], vec![])]).unwrap();
    let message = Message::binary_decode(&mut &bytes[..]).unwrap();
    let spans = as_structs(field(batch_of(&message), 2).unwrap());
    let tags = as_structs(field(&spans[0], 10).unwrap());
    assert_eq!(tags.len(), 3);
    assert_eq!(field(&tags[0], 3), Some(&text("first")));
    assert_eq!(field(&tags[1], 6), Some(&Data::I64(2)));
    assert_eq!(field(&tags[2], 3), Some(&text("third")));
}

#[test]
fn logs_and_references_are_reported() {
    let logs = vec![
        Log::new(Timestamp::from_unix_nanos(2_000_999), vec![Tag::string("event", "error")]),
        Log::new(Timestamp::from_unix_nanos(5_000), vec![]),
    ];
    let references = vec![
        SpanReference {
            kind: ReferenceKind::ChildOf,
            context: SpanContext::new(TraceId::new(7, 9), 5, 0, 1),
        },
        SpanReference {
            kind: ReferenceKind::FollowsFrom,
            context: SpanContext::new(TraceId::new(1, 2), 3, 0, 0),
        },
    ];
    let reporter = JaegerCompactReporter::with_host("svc", None, None);
    let bytes = reporter.report(&[span_with(vec![], logs, references)]).unwrap();
    let message = Message::compact_decode(&mut &bytes[..]).unwrap();
    let spans = as_structs(field(batch_of(&message), 2).unwrap());

    let references = as_structs(field(&spans[0], 6).unwrap());
    assert_eq!(references.len(), 2);
    assert_eq!(field(&references[0], 1), Some(&Data::I32(0)));
    assert_eq!(field(&references[0], 2), Some(&Data::I64(9)));
    assert_eq!(field(&references[0], 3), Some(&Data::I64(7)));
    assert_eq!(field(&references[0], 4), Some(&Data::I64(5)));
    assert_eq!(field(&references[1], 1), Some(&Data::I32(1)));
    assert_eq!(field(&references[1], 2), Some(&Data::I64(2)));
    assert_eq!(field(&references[1], 3), Some(&Data::I64(1)));
    assert_eq!(field(&references[1], 4), Some(&Data::I64(3)));

    let logs = as_structs(field(&spans[0], 11).unwrap());
    assert_eq!(logs.len(), 2);
    assert_eq!(field(&logs[0], 1), Some(&Data::I64(2_000)));
    let fields = as_structs(field(&logs[0], 2).unwrap());
    assert_eq!(fields.len(), 1);
    assert_eq!(field(&fields[0], 1), Some(&text("event")));
    assert_eq!(field(&fields[0], 3), Some(&text("error")));
    assert_eq!(field(&logs[1], 1), Some(&Data::I64(5)));
    assert_eq!(as_structs(field(&logs[1], 2).unwrap()).len(), 0);
}

#[test]
fn spans_are_reported_in_the_given_order() {
    let reporter = JaegerCompactReporter::with_host("svc", None, None);
    let spans: Vec<FinishedSpan> = ["a", "b", "c"]
        .iter()
        .map(|name| {
            FinishedSpan::new(
                SpanContext::new(TraceId::new(0, 1), 1, 0, 1),
                name,
                Timestamp::from_unix_nanos(0),
                Timestamp::from_unix_nanos(1),
                vec![],
                vec![],
                vec![],
            )
            .unwrap()
        })
        .collect();
    let bytes = reporter.report(&spans).unwrap();
    let message = Message::compact_decode(&mut &bytes[..]).unwrap();
    let records = as_structs(field(batch_of(&message), 2).unwrap());
    assert_eq!(records.len(), 3);
    assert_eq!(field(&records[0], 5), Some(&text("a")));
    assert_eq!(field(&records[1], 5), Some(&text("b")));
    assert_eq!(field(&records[2], 5), Some(&text("c")));
}

#[test]
fn an_empty_batch_has_a_process_and_no_spans() {
    let reporter = JaegerCompactReporter::with_host("svc", None, None);
    let bytes = reporter.report(&[]).unwrap();
    let message = Message::compact_decode(&mut &bytes[..]).unwrap();
    let batch = batch_of(&message);
    assert_eq!(as_structs(field(batch, 2).unwrap()).len(), 0);
    let process = as_struct(field(batch, 1).unwrap());
    assert_eq!(field(process, 1), Some(&text("svc")));
}

#[test]
fn encoding_twice_gives_the_same_bytes() {
    let mut compact = JaegerCompactReporter::with_host("svc", Some("host".to_string()), None);
    compact.add_service_tag(Tag::string("env", "test"));
    let mut binary = JaegerBinaryReporter::with_host("svc", Some("host".to_string()), None);
    binary.add_service_tag(Tag::string("env", "test"));
    let spans = vec![
        span_with(vec![Tag::string("x", "y")], vec![], vec![]),
        span_with(vec![Tag::long("n", 1)], vec![], vec![]),
    ];
    assert_eq!(compact.report(&spans).unwrap(), compact.report(&spans).unwrap());
    assert_eq!(binary.report(&spans).unwrap(), binary.report(&spans).unwrap());
    assert_ne!(compact.report(&spans).unwrap(), binary.report(&spans).unwrap());
}

#[test]
fn both_encodings_decode_to_the_same_message() {
    let compact = JaegerCompactReporter::with_host("svc", None, Some("10.0.0.1".to_string()));
    let binary = JaegerBinaryReporter::with_host("svc", None, Some("10.0.0.1".to_string()));
    let spans = vec![span_with(
        vec![Tag::string("x", "y"), Tag::bool("ok", true)],
        vec![Log::new(Timestamp::from_unix_nanos(1), vec![Tag::long("n", 3)])],
        vec![],
    )];
    let compact_bytes = compact.report(&spans).unwrap();
    let binary_bytes = binary.report(&spans).unwrap();
    let from_compact = Message::compact_decode(&mut &compact_bytes[..]).unwrap();
    let from_binary = Message::binary_decode(&mut &binary_bytes[..]).unwrap();
    assert_eq!(from_compact, from_binary);
}

#[test]
fn compact_message_begins_with_the_protocol_header() {
    let reporter = JaegerCompactReporter::with_host("s", None, None);
    let bytes = reporter.report(&[]).unwrap();
    assert_eq!(&bytes[..4], &[0x82, 0x81, 0, 9]);
    assert_eq!(&bytes[4..13], "emitBatch".as_bytes());
    let reporter = JaegerBinaryReporter::with_host("s", None, None);
    let bytes = reporter.report(&[]).unwrap();
    assert_eq!(&bytes[..8], &[0x80, 1, 0, 4, 0, 0, 0, 9]);
    assert_eq!(&bytes[8..17], "emitBatch".as_bytes());
}

#[test]
fn an_oversized_report_fails_and_the_reporter_stays_usable() {
    let reporter = JaegerCompactReporter::with_host("svc", None, None);
    let big = "x".repeat(MAX_DATAGRAM_SIZE);
    let spans = vec![span_with(vec![Tag::string("big", &big)], vec![], vec![])];
    assert_eq!(reporter.report(&spans), Err(TraceError { kind: ErrorKind::TransportFailed }));
    let small = vec![span_with(vec![], vec![], vec![])];
    assert!(reporter.report(&small).is_ok());
    assert_eq!(reporter.report(&spans).unwrap_err().kind(), ErrorKind::TransportFailed);
}

#[test]
fn the_datagram_limit_can_be_set() {
    let mut reporter = JaegerBinaryReporter::with_host("svc", None, None);
    let spans = vec![span_with(vec![], vec![], vec![])];
    let size = reporter.report(&spans).unwrap().len();
    reporter.set_max_datagram_size(size - 1);
    assert_eq!(reporter.report(&spans).unwrap_err().kind(), ErrorKind::TransportFailed);
    reporter.set_max_datagram_size(size);
    assert_eq!(reporter.report(&spans).unwrap().len(), size);
}

#[test]
fn datagram_keeps_an_encoding_that_is_not_too_large() {
    assert_eq!(datagram(Ok(vec![1, 2, 3]), 3), Ok(vec![1, 2, 3]));
    assert_eq!(datagram(Ok(vec![]), 0), Ok(vec![]));
    assert_eq!(
        datagram(Ok(vec![1, 2, 3, 4]), 3),
        Err(TraceError { kind: ErrorKind::TransportFailed })
    );
    assert_eq!(
        datagram(Err(TraceError { kind: ErrorKind::EncodingFailed }), 3),
        Err(TraceError { kind: ErrorKind::EncodingFailed })
    );
}

#[test]
fn a_failure_of_the_codec_is_an_encoding_failure() {
    assert_eq!(encoding_of(Ok(vec![1, 2, 3])), Ok(vec![1, 2, 3]));
    let failure = thrift_codec::Error::from(std::io::Error::from(std::io::ErrorKind::Other));
    assert_eq!(encoding_of(Err(failure)), Err(TraceError { kind: ErrorKind::EncodingFailed }));
}

#[test]
fn the_encoder_gives_what_the_reporter_sends() {
    let mut reporter = JaegerReporter::with_host("svc", None, None);
    reporter.add_service_tag(Tag::string("env", "test"));
    let spans = vec![span_with(vec![Tag::string("x", "y")], vec![], vec![])];
    for protocol in [Protocol::Compact, Protocol::Binary] {
        let encoded = encode(protocol, reporter.process(), &spans).unwrap();
        assert_eq!(encoded, reporter.report(&spans, protocol).unwrap());
        assert_eq!(encoded, encode(protocol, reporter.process(), &spans).unwrap());
    }
    let big = "x".repeat(MAX_DATAGRAM_SIZE + 1);
    let spans = vec![span_with(vec![Tag::string("big", &big)], vec![], vec![])];
    assert!(encode(Protocol::Compact, reporter.process(), &spans).unwrap().len() > MAX_DATAGRAM_SIZE);
    assert!(reporter.report(&spans, Protocol::Compact).is_err());
}

#[test]
fn a_new_reporter_has_the_default_tags() {
    let reporter = JaegerReporter::with_host(
        "svc",
        Some("myhost".to_string()),
        Some("192.168.0.1".to_string()),
    );
    let process = reporter.process();
    assert_eq!(process.service_name, "svc");
    assert_eq!(process.tags.len(), 3);
    assert_eq!(process.tags[0].key(), "jaeger.version");
    assert!(matches!(process.tags[0].value(), TagValue::String(v) if v == JAEGER_CLIENT_VERSION));
    assert_eq!(process.tags[1].key(), "hostname");
    assert!(matches!(process.tags[1].value(), TagValue::String(v) if v == "myhost"));
    assert_eq!(process.tags[2].key(), "ip");
    assert!(matches!(process.tags[2].value(), TagValue::String(v) if v == "192.168.0.1"));
    assert_eq!(reporter.max_datagram_size(), 65_507);

    let reporter = JaegerReporter::with_host("svc", None, Some("::1".to_string()));
    assert_eq!(reporter.process().tags.len(), 2);
    assert_eq!(reporter.process().tags[1].key(), "ip");
}

#[test]
fn new_reads_the_host_and_keeps_the_version_tag_first() {
    let reporter = JaegerBinaryReporter::new("svc");
    let process = reporter.process();
    assert_eq!(process.service_name, "svc");
    assert!(!process.tags.is_empty() && process.tags.len() <= 3);
    assert_eq!(process.tags[0].key(), "jaeger.version");
    for tag in &process.tags[1..] {
        assert!(tag.key() == "hostname" || tag.key() == "ip");
    }
}

#[test]
fn add_service_tag_affects_later_reports_only() {
    let mut reporter = JaegerReporter::with_host("svc", None, None);
    let before = reporter.report(&[], Protocol::Compact).unwrap();
    reporter.add_service_tag(Tag::string("env", "test"));
    let after = reporter.report(&[], Protocol::Compact).unwrap();
    assert_ne!(before, after);
    let message = Message::compact_decode(&mut &before[..]).unwrap();
    let process = as_struct(field(batch_of(&message), 1).unwrap());
    assert_eq!(as_structs(field(process, 2).unwrap()).len(), 1);
    let message = Message::compact_decode(&mut &after[..]).unwrap();
    let process = as_struct(field(batch_of(&message), 1).unwrap());
    assert_eq!(as_structs(field(process, 2).unwrap()).len(), 2);
}

#[test]
fn only_a_double_makes_a_double_value() {
    assert!(DoubleValue::new(Data::Double(0.25)).is_some());
    assert!(DoubleValue::new(Data::I64(1)).is_none());
    assert!(DoubleValue::new(Data::Bool(true)).is_none());
    assert!(DoubleValue::new(Data::Binary(vec![1])).is_none());
    let value = DoubleValue::new(Data::Double(-2.5)).unwrap();
    assert_eq!(value.data(), &Data::Double(-2.5));
    assert_eq!(value.clone().data(), &Data::Double(-2.5));
}

#[test]
fn error_messages_name_the_kind() {
    assert_eq!(TraceError::new(ErrorKind::MalformedContext).message(), "malformed span context");
    assert_eq!(TraceError::new(ErrorKind::EncodingFailed).message(), "encoding failed");
    assert_eq!(TraceError::new(ErrorKind::TransportFailed).message(), "transport failed");
}

#[test]
fn unsampled_spans_are_reported_unless_the_reporter_is_told_otherwise() {
    let spans: Vec<FinishedSpan> = [("a", 1u8), ("b", 0), ("c", 3), ("d", 2)]
        .iter()
        .map(|(name, flags)| {
            FinishedSpan::new(
                SpanContext::new(TraceId::new(0, 1), 1, 0, *flags),
                name,
                Timestamp::from_unix_nanos(0),
                Timestamp::from_unix_nanos(1),
                vec![],
                vec![],
                vec![],
            )
            .unwrap()
        })
        .collect();
    let mut reporter = JaegerReporter::with_host("svc", None, None);
    assert!(reporter.reports_unsampled());
    let bytes = reporter.report(&spans, Protocol::Binary).unwrap();
    let message = Message::binary_decode(&mut &bytes[..]).unwrap();
    assert_eq!(as_structs(field(batch_of(&message), 2).unwrap()).len(), 4);

    reporter.set_report_unsampled(false);
    assert!(!reporter.reports_unsampled());
    let bytes = reporter.report(&spans, Protocol::Binary).unwrap();
    let message = Message::binary_decode(&mut &bytes[..]).unwrap();
    let records = as_structs(field(batch_of(&message), 2).unwrap());
    assert_eq!(records.len(), 2);
    assert_eq!(field(&records[0], 5), Some(&text("a")));
    assert_eq!(field(&records[1], 5), Some(&text("c")));

    let mut compact = JaegerCompactReporter::with_host("svc", None, None);
    compact.set_report_unsampled(false);
    let bytes = compact.report(&spans[1..2]).unwrap();
    let message = Message::compact_decode(&mut &bytes[..]).unwrap();
    assert_eq!(as_structs(field(batch_of(&message), 2).unwrap()).len(), 0);
}

#[test]
fn the_crate_root_names_the_main_types() {
    let (tracer, mut receiver) = rustracing_jaeger::Tracer::new(AllSampler);
    let span: rustracing_jaeger::Span = tracer.span("x").start();
    assert!(span.finish());
    assert!(receiver.try_recv().is_some());
    let error = rustracing_jaeger::TraceError::new(rustracing_jaeger::ErrorKind::EncodingFailed);
    assert_eq!(error.kind(), ErrorKind::EncodingFailed);
}

#[test]
fn a_span_record_holds_the_span_as_the_agent_sees_it() {
    let span = span_with(vec![Tag::string("x", "y")], vec![], vec![]);
    let record = SpanRecord::new(&span);
    assert_eq!(record.trace_id_low, 9);
    assert_eq!(record.trace_id_high, 7);
    assert_eq!(record.span_id, 11);
    assert_eq!(record.parent_span_id, 5);
    assert_eq!(record.operation_name, "op");
    assert_eq!(record.flags, 1);
    assert_eq!(record.start_time, 1_000);
    assert_eq!(record.duration, 2_001);
    assert_eq!(record.tags.len(), 1);
    assert!(record.logs.is_empty());
    assert!(record.references.is_empty());

    let span = FinishedSpan::new(
        SpanContext::new(TraceId::new(0, u64::MAX), 1 << 63, 0, 255),
        "edge",
        Timestamp::from_unix_nanos(u64::MAX - 999),
        Timestamp::from_unix_nanos(u64::MAX),
        vec![],
        vec![],
        vec![],
    )
    .unwrap();
    let record = SpanRecord::new(&span);
    assert_eq!(record.trace_id_low, -1);
    assert_eq!(record.span_id, i64::MIN);
    assert_eq!(record.flags, 255);
    assert_eq!(record.start_time, 18_446_744_073_709_550);
    assert_eq!(record.duration, 0);
    let span = FinishedSpan::new(
        SpanContext::new(TraceId::new(0, 1), 1, 0, 0),
        "long",
        Timestamp::from_unix_nanos(0),
        Timestamp::from_unix_nanos(u64::MAX),
        vec![],
        vec![],
        vec![],
    )
    .unwrap();
    assert_eq!(SpanRecord::new(&span).duration, 18_446_744_073_709_551);
}

#[test]
fn a_batch_holds_the_process_and_the_selected_spans() {
    let reporter = JaegerReporter::with_host("svc", None, None);
    let spans: Vec<FinishedSpan> = [("a", 0u8), ("b", 1), ("c", 0)]
        .iter()
        .map(|(name, flags)| {
            FinishedSpan::new(
                SpanContext::new(TraceId::new(0, 1), 1, 0, *flags),
                name,
                Timestamp::from_unix_nanos(0),
                Timestamp::from_unix_nanos(1),
                vec![],
                vec![],
                vec![],
            )
            .unwrap()
        })
        .collect();
    let batch = Batch::new(reporter.process(), &spans, false);
    assert_eq!(batch.process.service_name, "svc");
    assert_eq!(batch.spans.len(), 3);
    assert_eq!(batch.spans[0].operation_name, "a");
    assert_eq!(batch.spans[2].operation_name, "c");
    let message = emit_batch(&batch);
    assert_eq!(message.method_name(), "emitBatch");
    assert_eq!(as_structs(field(batch_of(&message), 2).unwrap()).len(), 3);

    let batch = Batch::new(reporter.process(), &spans, true);
    assert_eq!(batch.spans.len(), 1);
    assert_eq!(batch.spans[0].operation_name, "b");
    let batch = Batch::new(reporter.process(), &[], true);
    assert!(batch.spans.is_empty());
}
