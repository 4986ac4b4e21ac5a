//! What a batch may hold so that thrift can carry it.
//!
//! Thrift writes the length of every byte string and of every list as a
//! signed 32-bit number. A batch can be encoded exactly when none of its
//! texts, byte strings and lists is longer than that allows. What this crate
//! builds for a batch is always made of values that thrift is asked to encode
//! here, with field identifiers that are not negative.

use crate::jaeger::batch_fields;
use crate::jaeger::batch_message;
use crate::jaeger::i32_field;
use crate::jaeger::i64_field;
use crate::jaeger::log_fields;
use crate::jaeger::log_structs;
use crate::jaeger::optional_list;
use crate::jaeger::process_fields;
use crate::jaeger::record_fields;
use crate::jaeger::record_structs;
use crate::jaeger::reference_fields;
use crate::jaeger::reference_structs;
use crate::jaeger::span_record;
use crate::jaeger::tag_fields;
use crate::jaeger::tag_structs;
use crate::jaeger::text_field;
use crate::jaeger::BatchView;
use crate::jaeger::ProcessView;
use crate::jaeger::SpanRecordView;
use crate::log::LogView;
use crate::span::FinishedSpanView;
use crate::span::SpanReferenceView;
use crate::tag::TagValueView;
use crate::tag::TagView;
use crate::thrift::data_fits;
use crate::thrift::data_supported;
use crate::thrift::max_thrift_len;
use crate::thrift::message_fits;
use crate::thrift::ThriftData;
use crate::thrift::ThriftField;
use vstd::prelude::*;
use vstd::utf8::encode_utf8;
use vstd::utf8::is_ascii_chars;
use vstd::utf8::is_ascii_chars_encode_utf8;

verus! {

/// The UTF-8 encoding of `text` is not longer than thrift allows.
pub open spec fn text_fits(text: Seq<char>) -> bool {
    encode_utf8(text).len() <= max_thrift_len()
}

/// The key and the value of the tag are not longer than thrift allows.
pub open spec fn tag_fits(tag: TagView) -> bool {
    text_fits(tag.key) && match tag.value {
        TagValueView::String(text) => text_fits(text),
        TagValueView::Binary(bytes) => bytes.len() <= max_thrift_len(),
        _ => true,
    }
}

/// There are not more tags than thrift allows, and every one of them fits.
pub open spec fn tags_fit(tags: Seq<TagView>) -> bool {
    tags.len() <= max_thrift_len() && forall|i: int|
        0 <= i < tags.len() ==> tag_fits(#[trigger] tags[i])
}

/// There are not more logs than thrift allows, and the fields of every one of
/// them fit.
pub open spec fn logs_fit(logs: Seq<LogView>) -> bool {
    logs.len() <= max_thrift_len() && forall|i: int|
        0 <= i < logs.len() ==> tags_fit((#[trigger] logs[i]).fields)
}

/// The name of the operation, the references, the tags and the logs of the
/// record fit.
pub open spec fn record_fits(record: SpanRecordView) -> bool {
    &&& text_fits(record.operation_name)
    &&& record.references.len() <= max_thrift_len()
    &&& tags_fit(record.tags)
    &&& logs_fit(record.logs)
}

/// The name of the operation, the references, the tags and the logs of the
/// span fit.
pub open spec fn span_fits(span: FinishedSpanView) -> bool {
    record_fits(span_record(span))
}

/// The name of the service, its tags and the spans fit, and there are not
/// more spans than thrift allows.
pub open spec fn batch_fits(batch: BatchView) -> bool {
    &&& text_fits(batch.process.service_name)
    &&& tags_fit(batch.process.tags)
    &&& batch.spans.len() <= max_thrift_len()
    &&& forall|i: int| 0 <= i < batch.spans.len() ==> record_fits(#[trigger] batch.spans[i])
}

/// Everything in the struct fits: every one of its fields does.
pub open spec fn fields_fit(fields: Seq<ThriftField>) -> bool {
    data_fits(ThriftData::Struct(fields))
}

/// Everything in the list of structs fits.
pub open spec fn structs_fit(items: Seq<Seq<ThriftField>>) -> bool {
    data_fits(ThriftData::List(items))
}

/// A list of structs fits exactly when it is not too long and every struct
/// in it fits.
pub proof fn lemma_structs_fit(items: Seq<Seq<ThriftField>>)
    ensures
        structs_fit(items) <==> items.len() <= max_thrift_len() && forall|i: int|
            0 <= i < items.len() ==> fields_fit(#[trigger] items[i]),
{
    reveal_with_fuel(data_fits, 2);
    if structs_fit(items) {
        assert forall|i: int| 0 <= i < items.len() implies fields_fit(#[trigger] items[i]) by {
            assert forall|j: int| 0 <= j < items[i].len() implies data_fits(
                #[trigger] items[i][j].data,
            ) by {}
        }
    }
    if items.len() <= max_thrift_len() && forall|i: int|
        0 <= i < items.len() ==> fields_fit(#[trigger] items[i]) {
        assert forall|i: int, j: int|
            0 <= i < items.len() && 0 <= j < items[i].len() implies data_fits(
            #[trigger] items[i][j].data,
        ) by {
            assert(fields_fit(items[i]));
        }
    }
}

/// The struct for a tag fits exactly when the tag does.
pub proof fn lemma_tag_fits(tag: TagView)
    ensures
        fields_fit(tag_fields(tag)) <==> tag_fits(tag),
{
    reveal_with_fuel(data_fits, 2);
    let fields = tag_fields(tag);
    if fields_fit(fields) {
        assert(data_fits(fields[0].data));
        assert(data_fits(fields[2].data));
    }
}

/// The structs for a sequence of tags fit exactly when the tags do.
pub proof fn lemma_tags_fit(tags: Seq<TagView>)
    ensures
        structs_fit(tag_structs(tags)) <==> tags_fit(tags),
{
    let items = tag_structs(tags);
    lemma_structs_fit(items);
    assert forall|i: int| 0 <= i < tags.len() implies (fields_fit(#[trigger] items[i])
        <==> tag_fits(tags[i])) by {
        lemma_tag_fits(tags[i]);
    }
    if tags_fit(tags) {
        assert forall|i: int| 0 <= i < items.len() implies fields_fit(#[trigger] items[i]) by {
            assert(tag_fits(tags[i]));
        }
    }
    if structs_fit(items) {
        assert forall|i: int| 0 <= i < tags.len() implies tag_fits(#[trigger] tags[i]) by {
            assert(fields_fit(items[i]));
        }
    }
}

/// The struct for a log fits exactly when the fields of the log do.
pub proof fn lemma_log_fits(log: LogView)
    ensures
        fields_fit(log_fields(log)) <==> tags_fit(log.fields),
{
    reveal_with_fuel(data_fits, 1);
    let fields = log_fields(log);
    lemma_tags_fit(log.fields);
    if fields_fit(fields) {
        assert(data_fits(fields[1].data));
    }
    if tags_fit(log.fields) {
        assert forall|i: int| 0 <= i < fields.len() implies data_fits(
            #[trigger] fields[i].data,
        ) by {}
    }
}

/// The structs for a sequence of logs fit exactly when the logs do.
pub proof fn lemma_logs_fit(logs: Seq<LogView>)
    ensures
        structs_fit(log_structs(logs)) <==> logs_fit(logs),
{
    let items = log_structs(logs);
    lemma_structs_fit(items);
    assert forall|i: int| 0 <= i < logs.len() implies (fields_fit(#[trigger] items[i])
        <==> tags_fit(logs[i].fields)) by {
        lemma_log_fits(logs[i]);
    }
    if logs_fit(logs) {
        assert forall|i: int| 0 <= i < items.len() implies fields_fit(#[trigger] items[i]) by {
            assert(tags_fit(logs[i].fields));
        }
    }
    if structs_fit(items) {
        assert forall|i: int| 0 <= i < logs.len() implies tags_fit(
            (#[trigger] logs[i]).fields,
        ) by {
            assert(fields_fit(items[i]));
        }
    }
}

/// The structs for a sequence of references fit exactly when there are not
/// too many of them.
pub proof fn lemma_references_fit(references: Seq<SpanReferenceView>)
    ensures
        structs_fit(reference_structs(references)) <==> references.len() <= max_thrift_len(),
{
    let items = reference_structs(references);
    lemma_structs_fit(items);
    reveal_with_fuel(data_fits, 2);
    assert forall|i: int| 0 <= i < items.len() implies fields_fit(#[trigger] items[i]) by {
        assert(items[i] == reference_fields(references[i]));
    }
}

/// A field for a list that is left out when the list is empty fits exactly
/// when the list does.
pub proof fn lemma_optional_list_fits(id: i16, items: Seq<Seq<ThriftField>>)
    ensures
        fields_fit(optional_list(id, items)) <==> structs_fit(items),
{
    reveal_with_fuel(data_fits, 1);
    let fields = optional_list(id, items);
    if items.len() > 0 {
        assert(fields[0].data == ThriftData::List(items));
        if fields_fit(fields) {
            assert(data_fits(fields[0].data));
        }
    } else {
        lemma_structs_fit(items);
    }
}

/// Two structs put together fit exactly when both fit.
pub proof fn lemma_joined_fields_fit(front: Seq<ThriftField>, back: Seq<ThriftField>)
    ensures
        fields_fit(front + back) <==> fields_fit(front) && fields_fit(back),
{
    reveal_with_fuel(data_fits, 1);
    let joined = front + back;
    if fields_fit(joined) {
        assert forall|i: int| 0 <= i < front.len() implies data_fits(
            #[trigger] front[i].data,
        ) by {
            assert(joined[i] == front[i]);
            assert(data_fits(joined[i].data));
        }
        assert forall|i: int| 0 <= i < back.len() implies data_fits(#[trigger] back[i].data) by {
            assert(joined[front.len() + i] == back[i]);
            assert(data_fits(joined[front.len() + i].data));
        }
    }
    if fields_fit(front) && fields_fit(back) {
        assert forall|i: int| 0 <= i < joined.len() implies data_fits(
            #[trigger] joined[i].data,
        ) by {
            if i < front.len() {
                assert(joined[i] == front[i]);
                assert(data_fits(front[i].data));
            } else {
                assert(joined[i] == back[i - front.len()]);
                assert(data_fits(back[i - front.len()].data));
            }
        }
    }
}

/// The struct for a span record fits exactly when the record does.
pub proof fn lemma_record_fits(record: SpanRecordView)
    ensures
        fields_fit(record_fields(record)) <==> record_fits(record),
{
    let head = seq![
        i64_field(1, record.trace_id_low),
        i64_field(2, record.trace_id_high),
        i64_field(3, record.span_id),
        i64_field(4, record.parent_span_id),
        text_field(5, record.operation_name),
    ];
    let references = optional_list(6, reference_structs(record.references));
    let middle = seq![
        i32_field(7, record.flags),
        i64_field(8, record.start_time),
        i64_field(9, record.duration),
    ];
    let tags = optional_list(10, tag_structs(record.tags));
    let logs = optional_list(11, log_structs(record.logs));
    assert(record_fields(record) == head + references + middle + tags + logs);
    lemma_joined_fields_fit(head + references + middle + tags, logs);
    lemma_joined_fields_fit(head + references + middle, tags);
    lemma_joined_fields_fit(head + references, middle);
    lemma_joined_fields_fit(head, references);
    lemma_optional_list_fits(6, reference_structs(record.references));
    lemma_optional_list_fits(10, tag_structs(record.tags));
    lemma_optional_list_fits(11, log_structs(record.logs));
    lemma_references_fit(record.references);
    lemma_tags_fit(record.tags);
    lemma_logs_fit(record.logs);
    assert(fields_fit(middle)) by {
        reveal_with_fuel(data_fits, 2);
    }
    assert(fields_fit(head) <==> text_fits(record.operation_name)) by {
        reveal_with_fuel(data_fits, 2);
        if fields_fit(head) {
            assert(data_fits(head[4].data));
        }
    }
}

/// The structs for a sequence of span records fit exactly when there are not
/// too many records and every record fits.
pub proof fn lemma_records_fit(records: Seq<SpanRecordView>)
    ensures
        structs_fit(record_structs(records)) <==> records.len() <= max_thrift_len()
            && forall|i: int| 0 <= i < records.len() ==> record_fits(#[trigger] records[i]),
{
    let items = record_structs(records);
    lemma_structs_fit(items);
    assert forall|i: int| 0 <= i < records.len() implies (fields_fit(#[trigger] items[i])
        <==> record_fits(records[i])) by {
        lemma_record_fits(records[i]);
    }
    if records.len() <= max_thrift_len() && forall|i: int|
        0 <= i < records.len() ==> record_fits(#[trigger] records[i]) {
        assert forall|i: int| 0 <= i < items.len() implies fields_fit(#[trigger] items[i]) by {
            assert(record_fits(records[i]));
        }
    }
    if structs_fit(items) {
        assert forall|i: int| 0 <= i < records.len() implies record_fits(
            #[trigger] records[i],
        ) by {
            assert(fields_fit(items[i]));
        }
    }
}

/// The struct for a process fits exactly when the name of the service and
/// its tags do.
pub proof fn lemma_process_fits(process: ProcessView)
    ensures
        fields_fit(process_fields(process)) <==> text_fits(process.service_name) && tags_fit(
            process.tags,
        ),
{
    let head = seq![text_field(1, process.service_name)];
    let tags = optional_list(2, tag_structs(process.tags));
    assert(process_fields(process) == head + tags);
    lemma_joined_fields_fit(head, tags);
    lemma_optional_list_fits(2, tag_structs(process.tags));
    lemma_tags_fit(process.tags);
    assert(fields_fit(head) <==> text_fits(process.service_name)) by {
        reveal_with_fuel(data_fits, 2);
        if fields_fit(head) {
            assert(data_fits(head[0].data));
        }
    }
}

/// The message for a batch can be encoded exactly when the batch fits: when
/// none of its texts, byte strings and lists is longer than thrift allows.
pub proof fn lemma_message_fits(batch: BatchView)
    ensures
        message_fits(batch_message(batch)) <==> batch_fits(batch),
{
    let message = batch_message(batch);
    let fields = batch_fields(batch);
    lemma_process_fits(batch.process);
    lemma_records_fit(batch.spans);
    assert(encode_utf8(message.method_name).len() == 9) by {
        reveal_strlit("emitBatch");
        assert(is_ascii_chars("emitBatch"@));
        is_ascii_chars_encode_utf8("emitBatch"@);
    }
    assert(fields_fit(fields) <==> fields_fit(process_fields(batch.process)) && structs_fit(
        record_structs(batch.spans),
    )) by {
        reveal_with_fuel(data_fits, 1);
        if fields_fit(fields) {
            assert(data_fits(fields[0].data));
            assert(data_fits(fields[1].data));
        }
        if fields_fit(process_fields(batch.process)) && structs_fit(
            record_structs(batch.spans),
        ) {
            assert forall|i: int| 0 <= i < fields.len() implies data_fits(
                #[trigger] fields[i].data,
            ) by {}
        }
    }
    assert(fields_fit(message.body) <==> fields_fit(fields)) by {
        reveal_with_fuel(data_fits, 1);
        if fields_fit(message.body) {
            assert(data_fits(message.body[0].data));
        }
        if fields_fit(fields) {
            assert forall|i: int| 0 <= i < message.body.len() implies data_fits(
                #[trigger] message.body[i].data,
            ) by {}
        }
    }
}

/// A tag struct holds supported values only.
pub proof fn lemma_tag_supported(tag: TagView)
    ensures
        data_supported(ThriftData::Struct(tag_fields(tag))),
{
    reveal_with_fuel(data_supported, 2);
}

/// A list of tag structs holds supported values only.
pub proof fn lemma_tags_supported(tags: Seq<TagView>)
    ensures
        data_supported(ThriftData::List(tag_structs(tags))),
{
    reveal_with_fuel(data_supported, 2);
    let items = tag_structs(tags);
    assert forall|i: int, j: int| 0 <= i < items.len() && 0 <= j < items[i].len() implies (
    #[trigger] items[i][j]).id >= 0 && data_supported(items[i][j].data) by {
        lemma_tag_supported(tags[i]);
    }
}

/// A list of log structs holds supported values only.
pub proof fn lemma_logs_supported(logs: Seq<LogView>)
    ensures
        data_supported(ThriftData::List(log_structs(logs))),
{
    reveal_with_fuel(data_supported, 2);
    let items = log_structs(logs);
    assert forall|i: int, j: int| 0 <= i < items.len() && 0 <= j < items[i].len() implies (
    #[trigger] items[i][j]).id >= 0 && data_supported(items[i][j].data) by {
        lemma_tags_supported(logs[i].fields);
    }
}

/// A list of reference structs holds supported values only.
pub proof fn lemma_references_supported(references: Seq<SpanReferenceView>)
    ensures
        data_supported(ThriftData::List(reference_structs(references))),
{
    reveal_with_fuel(data_supported, 2);
}

/// Each field of the struct for a span record is one of the eleven of the
/// schema.
proof fn lemma_record_field(record: SpanRecordView, i: int)
    requires
        0 <= i < record_fields(record).len(),
    ensures
        ({
            let field = record_fields(record)[i];
            ||| field == i64_field(1, record.trace_id_low)
            ||| field == i64_field(2, record.trace_id_high)
            ||| field == i64_field(3, record.span_id)
            ||| field == i64_field(4, record.parent_span_id)
            ||| field == text_field(5, record.operation_name)
            ||| field == (ThriftField {
                id: 6,
                data: ThriftData::List(reference_structs(record.references)),
            })
            ||| field == i32_field(7, record.flags)
            ||| field == i64_field(8, record.start_time)
            ||| field == i64_field(9, record.duration)
            ||| field == (ThriftField { id: 10, data: ThriftData::List(tag_structs(record.tags)) })
            ||| field == (ThriftField { id: 11, data: ThriftData::List(log_structs(record.logs)) })
        }),
{
}

/// The struct for a span record holds supported values only.
pub proof fn lemma_record_supported(record: SpanRecordView)
    ensures
        data_supported(ThriftData::Struct(record_fields(record))),
{
    let fields = record_fields(record);
    lemma_references_supported(record.references);
    lemma_tags_supported(record.tags);
    lemma_logs_supported(record.logs);
    reveal_with_fuel(data_supported, 2);
    assert forall|i: int| 0 <= i < fields.len() implies (#[trigger] fields[i]).id >= 0
        && data_supported(fields[i].data) by {
        lemma_record_field(record, i);
    }
}

/// A list of structs for span records holds supported values only.
pub proof fn lemma_records_supported(records: Seq<SpanRecordView>)
    ensures
        data_supported(ThriftData::List(record_structs(records))),
{
    let items = record_structs(records);
    assert forall|i: int, j: int| 0 <= i < items.len() && 0 <= j < items[i].len() implies (
    #[trigger] items[i][j]).id >= 0 && data_supported(items[i][j].data) by {
        lemma_record_supported(records[i]);
    }
}

/// The message for a batch holds supported values only, so that thrift can
/// be asked to encode it.
pub proof fn lemma_message_supported(batch: BatchView)
    ensures
        data_supported(ThriftData::Struct(batch_message(batch).body)),
{
    lemma_tags_supported(batch.process.tags);
    lemma_records_supported(batch.spans);
    reveal_with_fuel(data_supported, 4);
}

} // verus!
