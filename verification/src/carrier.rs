//! Taking a span context across a process boundary.
//!
//! A context travels as one field of a carrier. The value of the field is
//! `{trace id}:{span id}:{parent id}:{flags}`, each part a hexadecimal number.
//! Baggage does not travel in this field.

use crate::constants::TRACER_CONTEXT_HEADER_NAME;
use crate::error::ErrorKind;
use crate::error::TraceError;
use crate::hex::append_hex;
use crate::hex::ascii_text;
use crate::hex::hex_bytes;
use crate::hex::hex_value;
use crate::hex::is_hex_digit;
use crate::hex::is_hex_token;
use crate::hex::lemma_hex_bytes;
use crate::hex::lemma_hex_bytes_plain;
use crate::hex::lemma_pow16_values;
use crate::hex::parse_hex;
use crate::span::SpanContext;
use crate::span::SpanContextView;
use crate::span::TraceId;
use crate::text_map::lemma_put_lookup;
use crate::text_map::lookup;
use crate::text_map::put;
use crate::text_map::Entries;
use crate::text_map::TextMap;
use vstd::prelude::*;
use vstd::slice::slice_subrange;
use vstd::utf8::encode_utf8;
use vstd::utf8::is_ascii_chars;
use vstd::utf8::is_ascii_chars_encode_utf8;

verus! {

/// The byte that separates the parts of the field: a colon.
pub open spec fn separator() -> u8 {
    0x3a
}

/// The index of the first colon in `bytes`, or the length of `bytes` if there
/// is none.
pub open spec fn first_colon(bytes: Seq<u8>) -> int
    decreases bytes.len(),
{
    if bytes.len() == 0 {
        0
    } else if bytes[0] == separator() {
        0
    } else {
        1 + first_colon(bytes.drop_first())
    }
}

/// The trace identifier that is the number `value`.
pub open spec fn trace_id_of(value: nat) -> TraceId {
    TraceId {
        high: (value / 0x1_0000_0000_0000_0000) as u64,
        low: (value % 0x1_0000_0000_0000_0000) as u64,
    }
}

/// The context that the four parts of a field denote.
pub open spec fn context_of(
    trace_id: Seq<u8>,
    span_id: Seq<u8>,
    parent_span_id: Seq<u8>,
    flags: Seq<u8>,
) -> SpanContextView {
    SpanContextView {
        trace_id: trace_id_of(hex_value(trace_id)),
        span_id: hex_value(span_id) as u64,
        parent_span_id: hex_value(parent_span_id) as u64,
        flags: hex_value(flags) as u8,
        baggage: Entries::empty(),
    }
}

/// The context that the value of a carrier field denotes, if it denotes one.
///
/// The value must have exactly four parts with a colon between them: a trace
/// identifier of 1 to 32 hexadecimal digits, two span identifiers of 1 to 16,
/// and flags of 1 or 2. Any other value denotes nothing.
pub open spec fn parse_header(bytes: Seq<u8>) -> Option<SpanContextView> {
    let first = first_colon(bytes);
    let after_first = bytes.skip(first + 1);
    let second = first_colon(after_first);
    let after_second = after_first.skip(second + 1);
    let third = first_colon(after_second);
    if first < bytes.len() && second < after_first.len() && third < after_second.len() {
        let trace_id = bytes.take(first);
        let span_id = after_first.take(second);
        let parent_span_id = after_second.take(third);
        let flags = after_second.skip(third + 1);
        if is_hex_token(trace_id, 32) && is_hex_token(span_id, 16) && is_hex_token(
            parent_span_id,
            16,
        ) && is_hex_token(flags, 2) {
            Some(context_of(trace_id, span_id, parent_span_id, flags))
        } else {
            None
        }
    } else {
        None
    }
}

/// The value of the carrier field for a context, as bytes.
pub open spec fn header_bytes(context: SpanContextView) -> Seq<u8> {
    hex_bytes(context.trace_id.value()) + seq![separator()] + hex_bytes(context.span_id as nat)
        + seq![separator()] + hex_bytes(context.parent_span_id as nat) + seq![separator()]
        + hex_bytes(context.flags as nat)
}

/// The value of the carrier field for a context.
pub open spec fn header_text(context: SpanContextView) -> Seq<char> {
    ascii_text(header_bytes(context))
}

/// The context that a carrier holds, if it holds one.
pub open spec fn carried(entries: Entries) -> Option<SpanContextView> {
    match lookup(entries, TRACER_CONTEXT_HEADER_NAME@) {
        Some(value) => parse_header(encode_utf8(value)),
        None => None,
    }
}

/// The carrier after a context was put into it.
pub open spec fn carrying(entries: Entries, context: SpanContextView) -> Entries {
    put(entries, TRACER_CONTEXT_HEADER_NAME@, header_text(context))
}

/// The context without its baggage, which is what a carrier field keeps of it.
pub open spec fn without_baggage(context: SpanContextView) -> SpanContextView {
    SpanContextView { baggage: Entries::empty(), ..context }
}

/// Where `first_colon` points.
pub proof fn lemma_first_colon(bytes: Seq<u8>)
    ensures
        0 <= first_colon(bytes) <= bytes.len(),
        forall|i: int| 0 <= i < first_colon(bytes) ==> bytes[i] != separator(),
        first_colon(bytes) < bytes.len() ==> bytes[first_colon(bytes)] == separator(),
    decreases bytes.len(),
{
    if bytes.len() > 0 && bytes[0] != separator() {
        let rest = bytes.drop_first();
        lemma_first_colon(rest);
        assert forall|i: int| 0 <= i < first_colon(bytes) implies bytes[i] != separator() by {
            if i > 0 {
                assert(rest[i - 1] == bytes[i]);
            }
        }
    }
}

/// `first_colon` is the only index before which there is no colon and at
/// which, if it is an index at all, there is one.
pub proof fn lemma_first_colon_is(bytes: Seq<u8>, at: int)
    requires
        0 <= at <= bytes.len(),
        forall|i: int| 0 <= i < at ==> bytes[i] != separator(),
        at < bytes.len() ==> bytes[at] == separator(),
    ensures
        first_colon(bytes) == at,
    decreases bytes.len(),
{
    if bytes.len() > 0 && bytes[0] != separator() {
        let rest = bytes.drop_first();
        assert forall|i: int| 0 <= i < at - 1 implies rest[i] != separator() by {
            assert(rest[i] == bytes[i + 1]);
        }
        lemma_first_colon_is(rest, at - 1);
    }
}

/// ASCII text has the bytes it was made of as its UTF-8 encoding.
pub proof fn lemma_ascii_text_bytes(bytes: Seq<u8>)
    requires
        forall|i: int| 0 <= i < bytes.len() ==> #[trigger] bytes[i] < 0x80,
    ensures
        encode_utf8(ascii_text(bytes)) == bytes,
{
    let text = ascii_text(bytes);
    assert(is_ascii_chars(text)) by {
        assert forall|i: int| 0 <= i < text.len() implies '\0' <= #[trigger] text[i]
            <= '\u{7f}' by {
            assert(text[i] == bytes[i] as char);
        }
    }
    is_ascii_chars_encode_utf8(text);
    assert forall|i: int| 0 <= i < bytes.len() implies encode_utf8(text)[i] == bytes[i] by {
        assert(text[i] == bytes[i] as char);
        assert(text[i] as u8 == bytes[i]);
    }
    assert(encode_utf8(text) =~= bytes);
}

/// Four hexadecimal numbers of the allowed lengths with a colon between them
/// denote the context that they give.
pub proof fn lemma_four_parts_denote_a_context(
    trace_id: Seq<u8>,
    span_id: Seq<u8>,
    parent_span_id: Seq<u8>,
    flags: Seq<u8>,
)
    requires
        is_hex_token(trace_id, 32),
        is_hex_token(span_id, 16),
        is_hex_token(parent_span_id, 16),
        is_hex_token(flags, 2),
    ensures
        parse_header(
            trace_id + seq![separator()] + span_id + seq![separator()] + parent_span_id + seq![
                separator(),
            ] + flags,
        ) == Some(context_of(trace_id, span_id, parent_span_id, flags)),
{
    let colon = seq![separator()];
    let bytes = trace_id + colon + span_id + colon + parent_span_id + colon + flags;
    lemma_first_colon_is(bytes, trace_id.len() as int);
    let after_first = bytes.skip(trace_id.len() as int + 1);
    assert(after_first =~= span_id + colon + parent_span_id + colon + flags);
    lemma_first_colon_is(after_first, span_id.len() as int);
    let after_second = after_first.skip(span_id.len() as int + 1);
    assert(after_second =~= parent_span_id + colon + flags);
    lemma_first_colon_is(after_second, parent_span_id.len() as int);
    assert(bytes.take(trace_id.len() as int) =~= trace_id);
    assert(after_first.take(span_id.len() as int) =~= span_id);
    assert(after_second.take(parent_span_id.len() as int) =~= parent_span_id);
    assert(after_second.skip(parent_span_id.len() as int + 1) =~= flags);
}

/// The value of the field for a context denotes that context, without its
/// baggage.
pub proof fn lemma_header_round_trip(context: SpanContextView)
    ensures
        parse_header(header_bytes(context)) == Some(without_baggage(context)),
        parse_header(encode_utf8(header_text(context))) == Some(without_baggage(context)),
{
    let bytes = header_bytes(context);
    lemma_pow16_values();
    lemma_hex_bytes(context.trace_id.value(), 32);
    lemma_hex_bytes(context.span_id as nat, 16);
    lemma_hex_bytes(context.parent_span_id as nat, 16);
    lemma_hex_bytes(context.flags as nat, 2);
    lemma_four_parts_denote_a_context(
        hex_bytes(context.trace_id.value()),
        hex_bytes(context.span_id as nat),
        hex_bytes(context.parent_span_id as nat),
        hex_bytes(context.flags as nat),
    );
    assert(trace_id_of(context.trace_id.value()) == context.trace_id);
    assert forall|i: int| 0 <= i < bytes.len() implies #[trigger] bytes[i] < 0x80 by {
        lemma_header_bytes_plain(context, i);
    }
    lemma_ascii_text_bytes(bytes);
}

/// Every byte of the value of the field for a context is a hexadecimal digit
/// or a colon.
pub proof fn lemma_header_bytes_plain(context: SpanContextView, i: int)
    requires
        0 <= i < header_bytes(context).len(),
    ensures
        is_hex_digit(header_bytes(context)[i]) || header_bytes(context)[i] == separator(),
{
    lemma_hex_bytes_plain(context.trace_id.value());
    lemma_hex_bytes_plain(context.span_id as nat);
    lemma_hex_bytes_plain(context.parent_span_id as nat);
    lemma_hex_bytes_plain(context.flags as nat);
}

/// A value that denotes a context consists of hexadecimal digits and colons
/// only.
pub proof fn lemma_parsed_header_is_plain(bytes: Seq<u8>, i: int)
    requires
        parse_header(bytes) is Some,
        0 <= i < bytes.len(),
    ensures
        is_hex_digit(bytes[i]) || bytes[i] == separator(),
{
    let first = first_colon(bytes);
    let after_first = bytes.skip(first + 1);
    let second = first_colon(after_first);
    let after_second = after_first.skip(second + 1);
    let third = first_colon(after_second);
    lemma_first_colon(bytes);
    lemma_first_colon(after_first);
    lemma_first_colon(after_second);
    if i < first {
        assert(bytes.take(first)[i] == bytes[i]);
    } else if i == first {
    } else if i < first + 1 + second {
        assert(after_first.take(second)[i - first - 1] == bytes[i]);
    } else if i == first + 1 + second {
        assert(after_first[second] == bytes[i]);
    } else if i < first + 1 + second + 1 + third {
        assert(after_second.take(third)[i - first - second - 2] == bytes[i]);
    } else if i == first + 1 + second + 1 + third {
        assert(after_second[third] == bytes[i]);
    } else {
        assert(after_second.skip(third + 1)[i - first - second - third - 3] == bytes[i]);
    }
}

/// A value that denotes a context has exactly four parts, each a hexadecimal
/// number of the allowed length, with a colon between them.
pub proof fn lemma_parsed_header_has_four_parts(bytes: Seq<u8>) -> (parts: (
    Seq<u8>,
    Seq<u8>,
    Seq<u8>,
    Seq<u8>,
))
    requires
        parse_header(bytes) is Some,
    ensures
        bytes == parts.0 + seq![separator()] + parts.1 + seq![separator()] + parts.2 + seq![
            separator(),
        ] + parts.3,
        is_hex_token(parts.0, 32),
        is_hex_token(parts.1, 16),
        is_hex_token(parts.2, 16),
        is_hex_token(parts.3, 2),
        parse_header(bytes) == Some(context_of(parts.0, parts.1, parts.2, parts.3)),
{
    let first = first_colon(bytes);
    let after_first = bytes.skip(first + 1);
    let second = first_colon(after_first);
    let after_second = after_first.skip(second + 1);
    let third = first_colon(after_second);
    lemma_first_colon(bytes);
    lemma_first_colon(after_first);
    lemma_first_colon(after_second);
    let parts = (
        bytes.take(first),
        after_first.take(second),
        after_second.take(third),
        after_second.skip(third + 1),
    );
    assert(bytes =~= parts.0 + seq![separator()] + parts.1 + seq![separator()] + parts.2 + seq![
        separator(),
    ] + parts.3);
    parts
}

/// A carrier into which a context was put holds that context, without its
/// baggage.
pub proof fn lemma_carried_after_carrying(entries: Entries, context: SpanContextView)
    ensures
        carried(carrying(entries, context)) == Some(without_baggage(context)),
{
    lemma_put_lookup(
        entries,
        TRACER_CONTEXT_HEADER_NAME@,
        header_text(context),
        TRACER_CONTEXT_HEADER_NAME@,
    );
    lemma_header_round_trip(context);
}

fn find_colon(bytes: &[u8], from: usize) -> (at: usize)
    requires
        from <= bytes.len(),
    ensures
        from <= at <= bytes.len(),
        at - from == first_colon(bytes@.skip(from as int)),
{
    let ghost rest = bytes@.skip(from as int);
    let mut at: usize = from;
    while at < bytes.len()
        invariant
            from <= at <= bytes.len(),
            rest == bytes@.skip(from as int),
            forall|i: int| 0 <= i < at - from ==> rest[i] != separator(),
        decreases bytes.len() - at,
    {
        if bytes[at] == 0x3a {
            proof {
                lemma_first_colon_is(rest, at - from);
            }
            return at;
        }
        at += 1;
    }
    proof {
        lemma_first_colon_is(rest, at - from);
    }
    at
}

/// Reads a context from the value of a carrier field.
pub fn parse_header_value(value: &str) -> (r: Result<SpanContext, TraceError>)
    ensures
        match r {
            Ok(context) => parse_header(encode_utf8(value@)) == Some(context@),
            Err(error) => parse_header(encode_utf8(value@)) is None && error.kind
                == ErrorKind::MalformedContext,
        },
{
    let bytes = value.as_bytes();
    let malformed = TraceError::new(ErrorKind::MalformedContext);
    let first = find_colon(bytes, 0);
    assert(bytes@.skip(0) =~= bytes@);
    if first >= bytes.len() {
        return Err(malformed);
    }
    let second = find_colon(bytes, first + 1);
    if second >= bytes.len() {
        return Err(malformed);
    }
    let third = find_colon(bytes, second + 1);
    let ghost after_first = bytes@.skip(first + 1);
    let ghost after_second = after_first.skip(second - first);
    assert(after_second =~= bytes@.skip(second + 1));
    if third >= bytes.len() {
        return Err(malformed);
    }
    assert(bytes@.take(first as int) =~= bytes@.subrange(0, first as int));
    assert(after_first.take(second - first - 1) =~= bytes@.subrange(first + 1, second as int));
    assert(after_second.take(third - second - 1) =~= bytes@.subrange(second + 1, third as int));
    assert(after_second.skip(third - second) =~= bytes@.subrange(
        third + 1,
        bytes@.len() as int,
    ));
    proof {
        lemma_pow16_values();
    }
    let trace_id = parse_hex(slice_subrange(bytes, 0, first), 32);
    let span_id = parse_hex(slice_subrange(bytes, first + 1, second), 16);
    let parent_span_id = parse_hex(slice_subrange(bytes, second + 1, third), 16);
    let flags = parse_hex(slice_subrange(bytes, third + 1, bytes.len()), 2);
    match (trace_id, span_id, parent_span_id, flags) {
        (Some(trace_id), Some(span_id), Some(parent_span_id), Some(flags)) => Ok(
            SpanContext::new(
                TraceId::from_u128(trace_id),
                span_id as u64,
                parent_span_id as u64,
                flags as u8,
            ),
        ),
        _ => Err(malformed),
    }
}

/// Writes the value of the carrier field for a context.
pub fn header_value(context: &SpanContext) -> (r: String)
    ensures
        r@ == header_text(context@),
{
    proof {
        reveal_strlit(":");
    }
    let mut text = String::new();
    append_hex(&mut text, context.trace_id.to_u128());
    text.append(":");
    append_hex(&mut text, context.span_id as u128);
    text.append(":");
    append_hex(&mut text, context.parent_span_id as u128);
    text.append(":");
    append_hex(&mut text, context.flags as u128);
    assert(text@ =~= header_text(context@));
    text
}

/// Puts `context` into `carrier`: its trace, span and parent identifiers and
/// its flags, in one field. What else the carrier holds stays.
pub fn inject_into_carrier(context: &SpanContext, carrier: &mut TextMap)
    ensures
        final(carrier)@ == carrying(old(carrier)@, context@),
{
    let value = header_value(context);
    carrier.set(TRACER_CONTEXT_HEADER_NAME, value.as_str());
}

/// Takes the context out of `carrier`.
///
/// A carrier without the field, or with a value in it that denotes no
/// context, is malformed: nothing is made up for what is missing.
pub fn extract_from_carrier(carrier: &TextMap) -> (r: Result<SpanContext, TraceError>)
    ensures
        match r {
            Ok(context) => carried(carrier@) == Some(context@),
            Err(error) => carried(carrier@) is None && error.kind == ErrorKind::MalformedContext,
        },
{
    match carrier.get(TRACER_CONTEXT_HEADER_NAME) {
        Some(value) => parse_header_value(value),
        None => Err(TraceError::new(ErrorKind::MalformedContext)),
    }
}

} // verus!
