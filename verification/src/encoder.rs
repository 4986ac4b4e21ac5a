//! The encoder: from a process and finished spans to the bytes of one
//! message for the agent.
//!
//! Encoding has no side effect and depends on nothing but what it is given:
//! the same process and the same spans in the same order give the same bytes.

use crate::error::ErrorKind;
use crate::error::TraceError;
use crate::jaeger::emit_batch;
use crate::jaeger::batch_of;
use crate::jaeger::emit_batch_message;
use crate::jaeger::selected_spans;
use crate::jaeger::Batch;
use crate::jaeger::Process;
use crate::jaeger::ProcessView;
use crate::limits::batch_fits;
use crate::limits::lemma_message_fits;
use crate::span::finished_spans_view;
use crate::span::FinishedSpan;
use crate::span::FinishedSpanView;
use crate::thrift::binary_bytes;
use crate::thrift::binary_encode;
use crate::thrift::compact_bytes;
use crate::thrift::compact_encode;
use crate::thrift::message_fits;
use crate::thrift::ThriftMessage;
use vstd::prelude::*;

verus! {

/// The byte encoding of thrift that is written.
#[derive(Debug, Clone, Copy, PartialEq, Eq, Structural)]
pub enum Protocol {
    Compact,
    Binary,
}

/// The bytes of `message` in the given encoding.
pub open spec fn encoded(protocol: Protocol, message: ThriftMessage) -> Seq<u8> {
    match protocol {
        Protocol::Compact => compact_bytes(message),
        Protocol::Binary => binary_bytes(message),
    }
}

/// What encoding `message` gives: its bytes if it fits, and an encoding
/// failure if it holds a text, a byte string or a list that is longer than
/// thrift allows.
pub open spec fn encoding(protocol: Protocol, message: ThriftMessage) -> Result<
    Seq<u8>,
    TraceError,
> {
    if message_fits(message) {
        Ok(encoded(protocol, message))
    } else {
        Err(TraceError { kind: ErrorKind::EncodingFailed })
    }
}

/// What a result that holds bytes holds.
pub open spec fn bytes_view(result: Result<Vec<u8>, TraceError>) -> Result<Seq<u8>, TraceError> {
    match result {
        Ok(bytes) => Ok(bytes@),
        Err(error) => Err(error),
    }
}

/// What the codec gave: the bytes, if it gave any.
pub open spec fn outcome_view(outcome: Result<Vec<u8>, thrift_codec::Error>) -> Option<Seq<u8>> {
    match outcome {
        Ok(bytes) => Some(bytes@),
        Err(_) => None,
    }
}

/// Turns what the codec gave into the result of an encoding: the bytes, or an
/// encoding failure if there are none.
pub fn encoding_of(outcome: Result<Vec<u8>, thrift_codec::Error>) -> (r: Result<
    Vec<u8>,
    TraceError,
>)
    ensures
        bytes_view(r) == match outcome_view(outcome) {
            Some(bytes) => Ok::<Seq<u8>, TraceError>(bytes),
            None => Err(TraceError { kind: ErrorKind::EncodingFailed }),
        },
{
    match outcome {
        Ok(bytes) => Ok(bytes),
        Err(_) => Err(TraceError::new(ErrorKind::EncodingFailed)),
    }
}

/// Encodes the message that hands one batch to the agent: the process, and
/// the given spans in the given order. With `only_sampled`, spans that are not
/// sampled are left out.
pub fn encode_selected(
    protocol: Protocol,
    process: &Process,
    spans: &[FinishedSpan],
    only_sampled: bool,
) -> (r: Result<Vec<u8>, TraceError>)
    ensures
        bytes_view(r) == encoding(
            protocol,
            emit_batch_message(
                process@,
                selected_spans(only_sampled, finished_spans_view(spans@)),
            ),
        ),
{
    let batch = Batch::new(process, spans, only_sampled);
    let message = emit_batch(&batch);
    let outcome = match protocol {
        Protocol::Compact => compact_encode(&message),
        Protocol::Binary => binary_encode(&message),
    };
    encoding_of(outcome)
}

/// Encodes the message that hands one batch to the agent: the process, and
/// the given spans in the given order.
pub fn encode(protocol: Protocol, process: &Process, spans: &[FinishedSpan]) -> (r: Result<
    Vec<u8>,
    TraceError,
>)
    ensures
        bytes_view(r) == encoding(
            protocol,
            emit_batch_message(process@, finished_spans_view(spans@)),
        ),
{
    encode_selected(protocol, process, spans, false)
}

/// Encoding succeeds exactly when the batch fits: when none of its texts,
/// byte strings and lists is longer than thrift allows.
pub proof fn lemma_encoding_succeeds_when_batch_fits(
    protocol: Protocol,
    process: ProcessView,
    spans: Seq<FinishedSpanView>,
)
    ensures
        encoding(protocol, emit_batch_message(process, spans)) is Ok <==> batch_fits(
            batch_of(process, spans),
        ),
        encoding(protocol, emit_batch_message(process, spans)) is Err ==> encoding(
            protocol,
            emit_batch_message(process, spans),
        ) == Err::<Seq<u8>, TraceError>(TraceError { kind: ErrorKind::EncodingFailed }),
{
    lemma_message_fits(batch_of(process, spans));
}

/// Two encodings of the same process and the same spans in the same order
/// give the same result.
pub proof fn lemma_encodings_agree(
    protocol: Protocol,
    process: ProcessView,
    spans: Seq<FinishedSpanView>,
    first: Result<Vec<u8>, TraceError>,
    second: Result<Vec<u8>, TraceError>,
)
    requires
        bytes_view(first) == encoding(protocol, emit_batch_message(process, spans)),
        bytes_view(second) == encoding(protocol, emit_batch_message(process, spans)),
    ensures
        bytes_view(first) == bytes_view(second),
{
}

} // verus!
