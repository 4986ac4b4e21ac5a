//! The Jaeger schema: how processes, spans, tags and logs become the thrift
//! structs that the agent reads.
//!
//! Every function here says, field by field, which struct it builds. Nothing
//! is reordered and nothing is left out but, as the schema allows, a list
//! without items.

use crate::limits::lemma_message_supported;
use crate::log::logs_view;
use crate::log::Log;
use crate::log::LogView;
use crate::span::finished_spans_view;
use crate::span::flags_sampled;
use crate::span::references_view;
use crate::span::FinishedSpan;
use crate::span::FinishedSpanView;
use crate::span::ReferenceKind;
use crate::span::SpanReference;
use crate::span::SpanReferenceView;
use crate::tag::tags_view;
use crate::tag::Tag;
use crate::tag::TagValue;
use crate::tag::TagValueView;
use crate::tag::TagView;
use crate::thrift::data_supported;
use crate::thrift::field_binary;
use crate::thrift::field_bool;
use crate::thrift::field_i32;
use crate::thrift::field_i64;
use crate::thrift::field_list;
use crate::thrift::field_struct;
use crate::thrift::field_text;
use crate::thrift::list_view;
use crate::thrift::message_view;
use crate::thrift::struct_list;
use crate::thrift::struct_view;
use crate::thrift::ThriftData;
use crate::thrift::ThriftField;
use crate::thrift::ThriftMessage;
use crate::thrift::ThriftMessageKind;
use crate::time::whole_micros;
use thrift_codec::data::Field;
use thrift_codec::data::List;
use thrift_codec::data::Struct;
use thrift_codec::message::Message;
use vstd::prelude::*;
use vstd::utf8::encode_utf8;

verus! {

/// The process that reports: the name of the service and the tags that
/// describe it.
#[derive(Debug, Clone)]
pub struct Process {
    pub service_name: String,
    pub tags: Vec<Tag>,
}

/// What a process holds.
pub struct ProcessView {
    pub service_name: Seq<char>,
    pub tags: Seq<TagView>,
}

impl View for Process {
    type V = ProcessView;

    open spec fn view(&self) -> ProcessView {
        ProcessView { service_name: self.service_name@, tags: tags_view(self.tags@) }
    }
}

/// The 64 bits of `bits`, read as a signed number.
pub open spec fn signed(bits: u64) -> i64 {
    #[verifier::truncate]
    (bits as i64)
}

/// A thrift field that holds text, as its UTF-8 bytes.
pub open spec fn text_field(id: i16, text: Seq<char>) -> ThriftField {
    ThriftField { id, data: ThriftData::Binary(encode_utf8(text)) }
}

/// A thrift field that holds a 64-bit integer.
pub open spec fn i64_field(id: i16, value: i64) -> ThriftField {
    ThriftField { id, data: ThriftData::I64(value) }
}

/// A thrift field that holds a 32-bit integer.
pub open spec fn i32_field(id: i16, value: i32) -> ThriftField {
    ThriftField { id, data: ThriftData::I32(value) }
}

/// The number that the schema gives to the type of a tag value.
pub open spec fn tag_type(value: TagValueView) -> i32 {
    match value {
        TagValueView::String(_) => 0,
        TagValueView::Double(_) => 1,
        TagValueView::Bool(_) => 2,
        TagValueView::Long(_) => 3,
        TagValueView::Binary(_) => 4,
    }
}

/// The field that holds a tag value: each type of value has a field of its
/// own.
pub open spec fn tag_value_field(value: TagValueView) -> ThriftField {
    match value {
        TagValueView::String(text) => text_field(3, text),
        TagValueView::Double(bits) => ThriftField { id: 4, data: ThriftData::Double(bits) },
        TagValueView::Bool(flag) => ThriftField { id: 5, data: ThriftData::Bool(flag) },
        TagValueView::Long(number) => i64_field(6, number),
        TagValueView::Binary(bytes) => ThriftField { id: 7, data: ThriftData::Binary(bytes) },
    }
}

/// The struct for a tag: its key, the type of its value, and the value.
pub open spec fn tag_fields(tag: TagView) -> Seq<ThriftField> {
    seq![
        text_field(1, tag.key),
        i32_field(2, tag_type(tag.value)),
        tag_value_field(tag.value),
    ]
}

/// The structs for a sequence of tags, one for each, in the same order.
pub open spec fn tag_structs(tags: Seq<TagView>) -> Seq<Seq<ThriftField>> {
    tags.map_values(|tag: TagView| tag_fields(tag))
}

/// The struct for a log: when it was taken, in microseconds since the Unix
/// epoch, and its fields.
pub open spec fn log_fields(log: LogView) -> Seq<ThriftField> {
    seq![
        i64_field(1, whole_micros(log.timestamp.unix_nanos as int) as i64),
        ThriftField { id: 2, data: ThriftData::List(tag_structs(log.fields)) },
    ]
}

/// The structs for a sequence of logs, one for each, in the same order.
pub open spec fn log_structs(logs: Seq<LogView>) -> Seq<Seq<ThriftField>> {
    logs.map_values(|log: LogView| log_fields(log))
}

/// The number that the schema gives to a kind of reference.
pub open spec fn reference_type(kind: ReferenceKind) -> i32 {
    match kind {
        ReferenceKind::ChildOf => 0,
        ReferenceKind::FollowsFrom => 1,
    }
}

/// The struct for a reference: its kind, and the trace and span it points to.
pub open spec fn reference_fields(reference: SpanReferenceView) -> Seq<ThriftField> {
    seq![
        i32_field(1, reference_type(reference.kind)),
        i64_field(2, signed(reference.context.trace_id.low)),
        i64_field(3, signed(reference.context.trace_id.high)),
        i64_field(4, signed(reference.context.span_id)),
    ]
}

/// The structs for a sequence of references, one for each, in the same order.
pub open spec fn reference_structs(references: Seq<SpanReferenceView>) -> Seq<Seq<ThriftField>> {
    references.map_values(|reference: SpanReferenceView| reference_fields(reference))
}

/// What a span record holds.
pub struct SpanRecordView {
    pub trace_id_low: i64,
    pub trace_id_high: i64,
    pub span_id: i64,
    pub parent_span_id: i64,
    pub operation_name: Seq<char>,
    pub references: Seq<SpanReferenceView>,
    pub flags: i32,
    pub start_time: i64,
    pub duration: i64,
    pub tags: Seq<TagView>,
    pub logs: Seq<LogView>,
}

/// A span as the agent sees it: the record that goes on the wire.
///
/// A record is made of a finished span for one report and borrows from it.
#[derive(Debug)]
pub struct SpanRecord<'a> {
    pub trace_id_low: i64,
    pub trace_id_high: i64,
    pub span_id: i64,
    pub parent_span_id: i64,
    pub operation_name: &'a str,
    pub references: &'a [SpanReference],
    pub flags: i32,
    pub start_time: i64,
    pub duration: i64,
    pub tags: &'a [Tag],
    pub logs: &'a [Log],
}

impl<'a> View for SpanRecord<'a> {
    type V = SpanRecordView;

    open spec fn view(&self) -> SpanRecordView {
        SpanRecordView {
            trace_id_low: self.trace_id_low,
            trace_id_high: self.trace_id_high,
            span_id: self.span_id,
            parent_span_id: self.parent_span_id,
            operation_name: self.operation_name@,
            references: references_view(self.references@),
            flags: self.flags,
            start_time: self.start_time,
            duration: self.duration,
            tags: tags_view(self.tags@),
            logs: logs_view(self.logs@),
        }
    }
}

/// What each record of a sequence holds.
pub open spec fn records_view(records: Seq<SpanRecord>) -> Seq<SpanRecordView> {
    records.map_values(|record: SpanRecord| record@)
}

/// The record for a finished span.
///
/// Identifiers keep their bits. The start is given in microseconds since the
/// Unix epoch and the duration in microseconds, both cut off, not rounded.
pub open spec fn span_record(span: FinishedSpanView) -> SpanRecordView {
    SpanRecordView {
        trace_id_low: signed(span.span.context.trace_id.low),
        trace_id_high: signed(span.span.context.trace_id.high),
        span_id: signed(span.span.context.span_id),
        parent_span_id: signed(span.span.context.parent_span_id),
        operation_name: span.span.operation_name,
        references: span.span.references,
        flags: span.span.context.flags as i32,
        start_time: whole_micros(span.span.start_time.unix_nanos as int) as i64,
        duration: span.duration_micros() as i64,
        tags: span.span.tags,
        logs: span.span.logs,
    }
}

/// The records for a sequence of finished spans, one for each, in the same
/// order.
pub open spec fn span_records(spans: Seq<FinishedSpanView>) -> Seq<SpanRecordView> {
    spans.map_values(|span: FinishedSpanView| span_record(span))
}

/// A field that holds a list of structs, or no field if the list is empty.
pub open spec fn optional_list(id: i16, items: Seq<Seq<ThriftField>>) -> Seq<ThriftField> {
    if items.len() > 0 {
        seq![ThriftField { id, data: ThriftData::List(items) }]
    } else {
        Seq::empty()
    }
}

/// The struct for a span record.
pub open spec fn record_fields(record: SpanRecordView) -> Seq<ThriftField> {
    seq![
        i64_field(1, record.trace_id_low),
        i64_field(2, record.trace_id_high),
        i64_field(3, record.span_id),
        i64_field(4, record.parent_span_id),
        text_field(5, record.operation_name),
    ] + optional_list(6, reference_structs(record.references)) + seq![
        i32_field(7, record.flags),
        i64_field(8, record.start_time),
        i64_field(9, record.duration),
    ] + optional_list(10, tag_structs(record.tags)) + optional_list(
        11,
        log_structs(record.logs),
    )
}

/// The structs for a sequence of span records, one for each, in the same
/// order.
pub open spec fn record_structs(records: Seq<SpanRecordView>) -> Seq<Seq<ThriftField>> {
    records.map_values(|record: SpanRecordView| record_fields(record))
}

/// The struct for a finished span.
pub open spec fn span_fields(span: FinishedSpanView) -> Seq<ThriftField> {
    record_fields(span_record(span))
}

/// The spans of `spans` that are sampled, in the same order.
pub open spec fn sampled_spans(spans: Seq<FinishedSpanView>) -> Seq<FinishedSpanView>
    decreases spans.len(),
{
    if spans.len() == 0 {
        spans
    } else if flags_sampled(spans.last().span.context.flags) {
        sampled_spans(spans.drop_last()).push(spans.last())
    } else {
        sampled_spans(spans.drop_last())
    }
}

/// The spans of a batch that go on the wire: all of them, or only those that
/// are sampled.
pub open spec fn selected_spans(
    only_sampled: bool,
    spans: Seq<FinishedSpanView>,
) -> Seq<FinishedSpanView> {
    if only_sampled {
        sampled_spans(spans)
    } else {
        spans
    }
}

/// The struct for a process: the name of the service, and its tags.
pub open spec fn process_fields(process: ProcessView) -> Seq<ThriftField> {
    seq![text_field(1, process.service_name)] + optional_list(2, tag_structs(process.tags))
}

/// What a batch holds.
pub struct BatchView {
    pub process: ProcessView,
    pub spans: Seq<SpanRecordView>,
}

/// One reporting unit: a process, and the records of the spans that are
/// reported together.
///
/// A batch is made for one report and borrows from what it is made of.
#[derive(Debug)]
pub struct Batch<'a> {
    pub process: &'a Process,
    pub spans: Vec<SpanRecord<'a>>,
}

impl<'a> View for Batch<'a> {
    type V = BatchView;

    open spec fn view(&self) -> BatchView {
        BatchView { process: self.process@, spans: records_view(self.spans@) }
    }
}

/// The batch of a process and finished spans: the process, and the record of
/// each span, in the same order.
pub open spec fn batch_of(process: ProcessView, spans: Seq<FinishedSpanView>) -> BatchView {
    BatchView { process, spans: span_records(spans) }
}

/// The struct for a batch: the process, and the spans in the given order.
pub open spec fn batch_fields(batch: BatchView) -> Seq<ThriftField> {
    seq![
        ThriftField { id: 1, data: ThriftData::Struct(process_fields(batch.process)) },
        ThriftField { id: 2, data: ThriftData::List(record_structs(batch.spans)) },
    ]
}

/// The message that hands one batch to the agent.
pub open spec fn batch_message(batch: BatchView) -> ThriftMessage {
    ThriftMessage {
        kind: ThriftMessageKind::Oneway,
        method_name: "emitBatch"@,
        sequence_id: 0,
        body: seq![ThriftField { id: 1, data: ThriftData::Struct(batch_fields(batch)) }],
    }
}

/// The message that hands a process and finished spans to the agent.
pub open spec fn emit_batch_message(
    process: ProcessView,
    spans: Seq<FinishedSpanView>,
) -> ThriftMessage {
    batch_message(batch_of(process, spans))
}

/// Leaving out the spans that are not sampled leaves sampled spans only, each
/// of them one of the given spans, and leaves out nothing if all are sampled.
pub proof fn lemma_sampled_spans(spans: Seq<FinishedSpanView>)
    ensures
        sampled_spans(spans).len() <= spans.len(),
        forall|i: int|
            0 <= i < sampled_spans(spans).len() ==> flags_sampled(
                (#[trigger] sampled_spans(spans)[i]).span.context.flags,
            ) && spans.contains(sampled_spans(spans)[i]),
        (forall|i: int| 0 <= i < spans.len() ==> flags_sampled(
            (#[trigger] spans[i]).span.context.flags,
        )) ==> sampled_spans(spans) == spans,
    decreases spans.len(),
{
    if spans.len() > 0 {
        let front = spans.drop_last();
        lemma_sampled_spans(front);
        let chosen = sampled_spans(spans);
        assert forall|i: int| 0 <= i < chosen.len() implies flags_sampled(
            (#[trigger] chosen[i]).span.context.flags,
        ) && spans.contains(chosen[i]) by {
            if i < sampled_spans(front).len() {
                assert(chosen[i] == sampled_spans(front)[i]);
                let at = choose|at: int| 0 <= at < front.len() && front[at] == chosen[i];
                assert(spans[at] == chosen[i]);
            } else {
                assert(chosen[i] == spans[spans.len() - 1]);
            }
        }
        if forall|i: int| 0 <= i < spans.len() ==> flags_sampled(
            (#[trigger] spans[i]).span.context.flags,
        ) {
            assert forall|i: int| 0 <= i < front.len() implies flags_sampled(
                (#[trigger] front[i]).span.context.flags,
            ) by {
                assert(front[i] == spans[i]);
            }
            assert(flags_sampled(spans[spans.len() - 1].span.context.flags));
            assert(chosen =~= spans);
        }
    }
}

/// In the record of a span that does not end before it starts, the start is
/// the start of the span in whole microseconds, and the duration is the time
/// from its start to its end in whole microseconds, which is not negative.
pub proof fn lemma_record_times(span: FinishedSpanView)
    requires
        span.well_formed(),
    ensures
        span_record(span).start_time == span.span.start_time.unix_nanos / 1000,
        span_record(span).duration == (span.finish_time.unix_nanos
            - span.span.start_time.unix_nanos) / 1000,
        span_record(span).duration >= 0,
        span_record(span).duration * 1000 <= span.finish_time.unix_nanos
            - span.span.start_time.unix_nanos < (span_record(span).duration + 1) * 1000,
{
}

impl<'a> SpanRecord<'a> {
    /// The record for a finished span.
    ///
    /// Its duration is the time from the start of the span to its end in
    /// whole microseconds: what is left over is cut off. It is not negative.
    pub fn new(span: &'a FinishedSpan) -> (r: SpanRecord<'a>)
        ensures
            r@ == span_record(span@),
            r@.duration == span@.duration_micros(),
            r@.duration >= 0,
    {
        let context = span.context();
        SpanRecord {
            trace_id_low: context.trace_id.low as i64,
            trace_id_high: context.trace_id.high as i64,
            span_id: context.span_id as i64,
            parent_span_id: context.parent_span_id as i64,
            operation_name: span.operation_name(),
            references: span.references(),
            flags: context.flags as i32,
            start_time: span.start_time().unix_micros(),
            duration: span.duration_micros(),
            tags: span.tags(),
            logs: span.logs(),
        }
    }
}

impl<'a> Batch<'a> {
    /// The batch of a process and finished spans, in the given order. With
    /// `only_sampled`, spans that are not sampled are left out.
    pub fn new(process: &'a Process, spans: &'a [FinishedSpan], only_sampled: bool) -> (r: Batch<
        'a,
    >)
        ensures
            r@ == batch_of(process@, selected_spans(only_sampled, finished_spans_view(spans@))),
    {
        let ghost views = finished_spans_view(spans@);
        let mut records: Vec<SpanRecord<'a>> = Vec::new();
        let mut at: usize = 0;
        assert(views.subrange(0, 0) =~= Seq::empty());
        while at < spans.len()
            invariant
                at <= spans.len(),
                views == finished_spans_view(spans@),
                records_view(records@) =~= span_records(
                    selected_spans(only_sampled, views.subrange(0, at as int)),
                ),
            decreases spans.len() - at,
        {
            let ghost before = views.subrange(0, at as int);
            let ghost after = views.subrange(0, at as int + 1);
            let ghost chosen_before = selected_spans(only_sampled, before);
            let ghost chosen_after = selected_spans(only_sampled, after);
            proof {
                assert(after.drop_last() =~= before);
                assert(after.last() == spans[at as int]@);
                assert(after =~= before.push(spans[at as int]@));
            }
            if !only_sampled || spans[at].context().is_sampled() {
                records.push(SpanRecord::new(&spans[at]));
                proof {
                    assert(chosen_after =~= chosen_before.push(spans[at as int]@));
                    assert(span_records(chosen_after) =~= span_records(chosen_before).push(
                        span_record(spans[at as int]@),
                    ));
                }
            } else {
                proof {
                    assert(chosen_after =~= chosen_before);
                }
            }
            at += 1;
        }
        assert(views.subrange(0, at as int) =~= views);
        Batch { process, spans: records }
    }
}

fn tag_struct(tag: &Tag) -> (r: Struct)
    ensures
        struct_view(r) == tag_fields(tag@),
{
    let mut fields: Vec<Field> = Vec::new();
    fields.push(field_text(1, tag.key.as_str()));
    match &tag.value {
        TagValue::String(text) => {
            fields.push(field_i32(2, 0));
            fields.push(field_text(3, text.as_str()));
        },
        TagValue::Double(number) => {
            fields.push(field_i32(2, 1));
            fields.push(number.to_field(4));
        },
        TagValue::Bool(flag) => {
            fields.push(field_i32(2, 2));
            fields.push(field_bool(5, *flag));
        },
        TagValue::Long(number) => {
            fields.push(field_i32(2, 3));
            fields.push(field_i64(6, *number));
        },
        TagValue::Binary(bytes) => {
            fields.push(field_i32(2, 4));
            fields.push(field_binary(7, bytes.as_slice()));
        },
    }
    let r = Struct::new(fields);
    assert(struct_view(r) =~= tag_fields(tag@));
    r
}

fn tag_list(tags: &[Tag]) -> (r: List)
    ensures
        list_view(r) == ThriftData::List(tag_structs(tags_view(tags@))),
{
    let mut structs: Vec<Struct> = Vec::new();
    let mut at: usize = 0;
    while at < tags.len()
        invariant
            at <= tags.len(),
            structs.len() == at,
            forall|k: int|
                0 <= k < at ==> struct_view(#[trigger] structs[k]) == tag_fields(tags[k]@),
        decreases tags.len() - at,
    {
        structs.push(tag_struct(&tags[at]));
        at += 1;
    }
    assert(structs@.map_values(|item: Struct| struct_view(item)) =~= tag_structs(
        tags_view(tags@),
    ));
    struct_list(structs)
}

fn log_struct(log: &Log) -> (r: Struct)
    ensures
        struct_view(r) == log_fields(log@),
{
    let mut fields: Vec<Field> = Vec::new();
    fields.push(field_i64(1, log.timestamp.unix_micros()));
    fields.push(field_list(2, tag_list(log.fields.as_slice())));
    let r = Struct::new(fields);
    assert(struct_view(r) =~= log_fields(log@));
    r
}

fn log_list(logs: &[Log]) -> (r: List)
    ensures
        list_view(r) == ThriftData::List(log_structs(logs_view(logs@))),
{
    let mut structs: Vec<Struct> = Vec::new();
    let mut at: usize = 0;
    while at < logs.len()
        invariant
            at <= logs.len(),
            structs.len() == at,
            forall|k: int|
                0 <= k < at ==> struct_view(#[trigger] structs[k]) == log_fields(logs[k]@),
        decreases logs.len() - at,
    {
        structs.push(log_struct(&logs[at]));
        at += 1;
    }
    assert(structs@.map_values(|item: Struct| struct_view(item)) =~= log_structs(
        logs_view(logs@),
    ));
    struct_list(structs)
}

fn reference_struct(reference: &SpanReference) -> (r: Struct)
    ensures
        struct_view(r) == reference_fields(reference@),
{
    let kind: i32 = match reference.kind {
        ReferenceKind::ChildOf => 0,
        ReferenceKind::FollowsFrom => 1,
    };
    let mut fields: Vec<Field> = Vec::new();
    fields.push(field_i32(1, kind));
    fields.push(field_i64(2, reference.context.trace_id.low as i64));
    fields.push(field_i64(3, reference.context.trace_id.high as i64));
    fields.push(field_i64(4, reference.context.span_id as i64));
    let r = Struct::new(fields);
    assert(struct_view(r) =~= reference_fields(reference@));
    r
}

fn reference_list(references: &[SpanReference]) -> (r: List)
    ensures
        list_view(r) == ThriftData::List(reference_structs(references_view(references@))),
{
    let mut structs: Vec<Struct> = Vec::new();
    let mut at: usize = 0;
    while at < references.len()
        invariant
            at <= references.len(),
            structs.len() == at,
            forall|k: int|
                0 <= k < at ==> struct_view(#[trigger] structs[k]) == reference_fields(
                    references[k]@,
                ),
        decreases references.len() - at,
    {
        structs.push(reference_struct(&references[at]));
        at += 1;
    }
    assert(structs@.map_values(|item: Struct| struct_view(item)) =~= reference_structs(
        references_view(references@),
    ));
    struct_list(structs)
}

/// Builds the thrift struct for a span record.
pub fn record_struct(record: &SpanRecord) -> (r: Struct)
    ensures
        struct_view(r) == record_fields(record@),
{
    let mut fields: Vec<Field> = Vec::new();
    fields.push(field_i64(1, record.trace_id_low));
    fields.push(field_i64(2, record.trace_id_high));
    fields.push(field_i64(3, record.span_id));
    fields.push(field_i64(4, record.parent_span_id));
    fields.push(field_text(5, record.operation_name));
    if record.references.len() > 0 {
        fields.push(field_list(6, reference_list(record.references)));
    }
    fields.push(field_i32(7, record.flags));
    fields.push(field_i64(8, record.start_time));
    fields.push(field_i64(9, record.duration));
    if record.tags.len() > 0 {
        fields.push(field_list(10, tag_list(record.tags)));
    }
    if record.logs.len() > 0 {
        fields.push(field_list(11, log_list(record.logs)));
    }
    let r = Struct::new(fields);
    assert(struct_view(r) =~= record_fields(record@));
    r
}

/// Builds the thrift struct for a finished span.
pub fn span_struct(span: &FinishedSpan) -> (r: Struct)
    ensures
        struct_view(r) == span_fields(span@),
{
    let record = SpanRecord::new(span);
    record_struct(&record)
}

fn record_list(records: &[SpanRecord]) -> (r: List)
    ensures
        list_view(r) == ThriftData::List(record_structs(records_view(records@))),
{
    let mut structs: Vec<Struct> = Vec::new();
    let mut at: usize = 0;
    while at < records.len()
        invariant
            at <= records.len(),
            structs.len() == at,
            forall|k: int|
                0 <= k < at ==> struct_view(#[trigger] structs[k]) == record_fields(records[k]@),
        decreases records.len() - at,
    {
        structs.push(record_struct(&records[at]));
        at += 1;
    }
    assert(structs@.map_values(|item: Struct| struct_view(item)) =~= record_structs(
        records_view(records@),
    ));
    struct_list(structs)
}

/// Builds the thrift struct for a process.
pub fn process_struct(process: &Process) -> (r: Struct)
    ensures
        struct_view(r) == process_fields(process@),
{
    let mut fields: Vec<Field> = Vec::new();
    fields.push(field_text(1, process.service_name.as_str()));
    if process.tags.len() > 0 {
        fields.push(field_list(2, tag_list(process.tags.as_slice())));
    }
    let r = Struct::new(fields);
    assert(struct_view(r) =~= process_fields(process@));
    r
}

/// Builds the thrift struct for a batch.
pub fn batch_struct(batch: &Batch) -> (r: Struct)
    ensures
        struct_view(r) == batch_fields(batch@),
{
    let mut fields: Vec<Field> = Vec::new();
    fields.push(field_struct(1, process_struct(batch.process)));
    fields.push(field_list(2, record_list(batch.spans.as_slice())));
    let r = Struct::new(fields);
    assert(struct_view(r) =~= batch_fields(batch@));
    r
}

/// Builds the message that hands one batch to the agent.
pub fn emit_batch(batch: &Batch) -> (r: Message)
    ensures
        message_view(r) == batch_message(batch@),
        data_supported(ThriftData::Struct(message_view(r).body)),
{
    let mut fields: Vec<Field> = Vec::new();
    fields.push(field_struct(1, batch_struct(batch)));
    let body = Struct::new(fields);
    assert(struct_view(body) =~= batch_message(batch@).body);
    proof {
        lemma_message_supported(batch@);
    }
    Message::oneway("emitBatch", 0, body)
}

} // verus!
