//! Thrift values, as far as the agent protocol needs them.
//!
//! The values themselves are those of the `thrift_codec` crate. Verus cannot
//! look inside them, so each kind of value gets a mathematical model and every
//! constructor states which model its result has. Nothing in this module is
//! proved: the contracts describe `thrift_codec` and are taken on trust.
//!
//! The model tells apart every two values that `thrift_codec` tells apart.
//! Values of the kinds that this crate builds are modelled by what they
//! hold. Every other value is modelled as `ThriftData::Other`, and the
//! encoders are not asked to encode it.

use thrift_codec::data::Data;
use thrift_codec::data::Field;
use thrift_codec::data::List;
use thrift_codec::data::Struct;
use thrift_codec::message::Message;
use thrift_codec::BinaryEncode;
use thrift_codec::CompactEncode;
use vstd::prelude::*;
use vstd::utf8::encode_utf8;

verus! {

/// The payload of a thrift value.
///
/// A double stands here by its IEEE 754 bit pattern, text by its UTF-8 bytes,
/// and a list of structs by the fields of each struct.
pub enum ThriftData {
    Bool(bool),
    I32(i32),
    I64(i64),
    Double(u64),
    Binary(Seq<u8>),
    Struct(Seq<ThriftField>),
    List(Seq<Seq<ThriftField>>),
    /// A value of a kind that this crate does not build: a byte, a 16-bit
    /// integer, a map, a set, a UUID or a list of anything but structs. The
    /// number tells such values apart.
    Other(nat),
}

/// A field of a thrift struct: its identifier and its payload.
pub struct ThriftField {
    pub id: i16,
    pub data: ThriftData,
}

/// The kind of a thrift message.
pub enum ThriftMessageKind {
    Call,
    Reply,
    Exception,
    Oneway,
}

/// A thrift message.
pub struct ThriftMessage {
    pub kind: ThriftMessageKind,
    pub method_name: Seq<char>,
    pub sequence_id: i32,
    pub body: Seq<ThriftField>,
}

/// The longest byte string and the longest list that thrift can carry.
pub open spec fn max_thrift_len() -> nat {
    0x7FFF_FFFF
}

/// No byte string and no list in `data` is longer than thrift allows.
pub open spec fn data_fits(data: ThriftData) -> bool
    decreases data,
{
    match data {
        ThriftData::Binary(bytes) => bytes.len() <= max_thrift_len(),
        ThriftData::Struct(fields) => forall|i: int|
            0 <= i < fields.len() ==> data_fits(#[trigger] fields[i].data),
        ThriftData::List(items) => items.len() <= max_thrift_len() && forall|i: int, j: int|
            0 <= i < items.len() && 0 <= j < items[i].len() ==> data_fits(
                #[trigger] items[i][j].data,
            ),
        _ => true,
    }
}

/// Everything in `data` is of a kind that this crate builds, and no field
/// identifier in it is negative.
pub open spec fn data_supported(data: ThriftData) -> bool
    decreases data,
{
    match data {
        ThriftData::Struct(fields) => forall|i: int|
            0 <= i < fields.len() ==> (#[trigger] fields[i]).id >= 0 && data_supported(
                fields[i].data,
            ),
        ThriftData::List(items) => forall|i: int, j: int|
            0 <= i < items.len() && 0 <= j < items[i].len() ==> (#[trigger] items[i][j]).id >= 0
                && data_supported(items[i][j].data),
        ThriftData::Other(_) => false,
        _ => true,
    }
}

/// The name of the message and everything in its body fit.
pub open spec fn message_fits(message: ThriftMessage) -> bool {
    &&& encode_utf8(message.method_name).len() <= max_thrift_len()
    &&& data_fits(ThriftData::Struct(message.body))
}

/// `thrift_codec::data::Data`, a thrift value of any kind. Opaque here.
#[verifier::external_type_specification]
#[verifier::external_body]
pub struct ExData(thrift_codec::data::Data);

/// `thrift_codec::data::Field`, a field of a struct. Opaque here.
#[verifier::external_type_specification]
#[verifier::external_body]
pub struct ExField(thrift_codec::data::Field);

/// `thrift_codec::data::Struct`, a thrift struct. Opaque here.
#[verifier::external_type_specification]
#[verifier::external_body]
pub struct ExStruct(thrift_codec::data::Struct);

/// `thrift_codec::data::List`, a thrift list. Opaque here.
#[verifier::external_type_specification]
#[verifier::external_body]
pub struct ExList(thrift_codec::data::List);

/// `thrift_codec::message::Message`, a thrift message. Opaque here.
#[verifier::external_type_specification]
#[verifier::external_body]
pub struct ExMessage(thrift_codec::message::Message);

/// `thrift_codec::Error`, the error of the encoders. Opaque here.
#[verifier::external_type_specification]
#[verifier::external_body]
pub struct ExThriftError(thrift_codec::Error);

/// The payload that a `Data` holds. For a `Data::Double` it is the bit
/// pattern of the number, for a value of a kind that this crate does not build
/// it is `ThriftData::Other`.
pub uninterp spec fn data_view(data: Data) -> ThriftData;

/// The identifier and payload that a `Field` holds.
pub uninterp spec fn field_view(field: Field) -> ThriftField;

/// The fields that a `Struct` holds, in order.
pub uninterp spec fn struct_view(value: Struct) -> Seq<ThriftField>;

/// What a `List` holds: for a list of structs, a `ThriftData::List` of the
/// structs in order, for any other list `ThriftData::Other`.
pub uninterp spec fn list_view(list: List) -> ThriftData;

/// The kind, name, sequence number and body that a `Message` holds.
pub uninterp spec fn message_view(message: Message) -> ThriftMessage;

/// The bytes that `CompactEncode::compact_encode` writes for a message that
/// fits.
pub uninterp spec fn compact_bytes(message: ThriftMessage) -> Seq<u8>;

/// The bytes that `BinaryEncode::binary_encode` writes for a message that
/// fits.
pub uninterp spec fn binary_bytes(message: ThriftMessage) -> Seq<u8>;

/// `Data::kind`, compared with `DataKind::Double`: `Data::kind` returns that
/// kind for the variant `Data::Double` and for no other.
#[verifier::external_body]
pub(crate) fn is_double(data: &Data) -> (r: bool)
    ensures
        r == (data_view(*data) is Double),
{
    data.kind() == thrift_codec::data::DataKind::Double
}

/// `Data::clone`, which is derived: the copy holds what `data` holds.
pub assume_specification[ <thrift_codec::data::Data as Clone>::clone ](
    data: &thrift_codec::data::Data,
) -> (r: thrift_codec::data::Data)
    ensures
        data_view(r) == data_view(*data),
;

/// `Field::new` with a `bool`: `Data::from` makes it a `Data::Bool`.
#[verifier::external_body]
pub(crate) fn field_bool(id: i16, value: bool) -> (r: Field)
    ensures
        field_view(r) == (ThriftField { id, data: ThriftData::Bool(value) }),
{
    Field::new(id, value)
}

/// `Field::new` with an `i32`: `Data::from` makes it a `Data::I32`.
#[verifier::external_body]
pub(crate) fn field_i32(id: i16, value: i32) -> (r: Field)
    ensures
        field_view(r) == (ThriftField { id, data: ThriftData::I32(value) }),
{
    Field::new(id, value)
}

/// `Field::new` with an `i64`: `Data::from` makes it a `Data::I64`.
#[verifier::external_body]
pub(crate) fn field_i64(id: i16, value: i64) -> (r: Field)
    ensures
        field_view(r) == (ThriftField { id, data: ThriftData::I64(value) }),
{
    Field::new(id, value)
}

/// `Field::new` with a `&str`: `Data::from` copies its UTF-8 bytes into a
/// `Data::Binary`.
#[verifier::external_body]
pub(crate) fn field_text(id: i16, value: &str) -> (r: Field)
    ensures
        field_view(r) == (ThriftField { id, data: ThriftData::Binary(encode_utf8(value@)) }),
{
    Field::new(id, value)
}

/// `Field::new` with a `&[u8]`: `Data::from` copies the bytes into a
/// `Data::Binary`.
#[verifier::external_body]
pub(crate) fn field_binary(id: i16, value: &[u8]) -> (r: Field)
    ensures
        field_view(r) == (ThriftField { id, data: ThriftData::Binary(value@) }),
{
    Field::new(id, value)
}

/// `Field::new` with a `Data`, which it stores as it is.
#[verifier::external_body]
pub(crate) fn field_data(id: i16, value: Data) -> (r: Field)
    ensures
        field_view(r) == (ThriftField { id, data: data_view(value) }),
{
    Field::new(id, value)
}

/// `Field::new` with a `Struct`: `Data::from` makes it a `Data::Struct`.
#[verifier::external_body]
pub(crate) fn field_struct(id: i16, value: Struct) -> (r: Field)
    ensures
        field_view(r) == (ThriftField { id, data: ThriftData::Struct(struct_view(value)) }),
{
    Field::new(id, value)
}

/// `Field::new` with a `List`: `Data::from` makes it a `Data::List`.
#[verifier::external_body]
pub(crate) fn field_list(id: i16, value: List) -> (r: Field)
    ensures
        field_view(r) == (ThriftField { id, data: list_view(value) }),
{
    Field::new(id, value)
}

/// `List::from` with a vector of structs, which it keeps in the given order.
#[verifier::external_body]
pub(crate) fn struct_list(items: Vec<Struct>) -> (r: List)
    ensures
        list_view(r) == ThriftData::List(items@.map_values(|item: Struct| struct_view(item))),
{
    List::from(items)
}

/// `Struct::new` keeps the given fields in the given order.
pub assume_specification[ thrift_codec::data::Struct::new ](
    fields: Vec<thrift_codec::data::Field>,
) -> (r: thrift_codec::data::Struct)
    ensures
        struct_view(r) == fields@.map_values(|field: Field| field_view(field)),
;

/// `Message::oneway` makes a one-way message of the name, the sequence number
/// and the body.
pub assume_specification[ thrift_codec::message::Message::oneway ](
    method_name: &str,
    sequence_id: i32,
    body: thrift_codec::data::Struct,
) -> (r: thrift_codec::message::Message)
    ensures
        message_view(r) == (ThriftMessage {
            kind: ThriftMessageKind::Oneway,
            method_name: method_name@,
            sequence_id,
            body: struct_view(body),
        }),
;

/// `CompactEncode::compact_encode` for a `Message`, writing into a fresh
/// vector.
///
/// Writing into a vector cannot fail, so the call fails exactly when it meets
/// a byte string or a list that is longer than `0x7FFF_FFFF`. The encoder
/// subtracts each field identifier from the one before it in 16 bits, which
/// overflows for no identifiers that are all non-negative. The bytes depend on
/// the message alone.
#[verifier::external_body]
pub(crate) fn compact_encode(message: &Message) -> (r: Result<Vec<u8>, thrift_codec::Error>)
    requires
        data_supported(ThriftData::Struct(message_view(*message).body)),
    ensures
        r is Ok <==> message_fits(message_view(*message)),
        r matches Ok(bytes) ==> bytes@ == compact_bytes(message_view(*message)),
{
    let mut bytes = Vec::new();
    match message.compact_encode(&mut bytes) {
        Ok(()) => Ok(bytes),
        Err(e) => Err(e),
    }
}

/// `BinaryEncode::binary_encode` for a `Message`, writing into a fresh vector.
///
/// Writing into a vector cannot fail, so the call fails exactly when it meets
/// a byte string or a list that is longer than `0x7FFF_FFFF`. The bytes depend
/// on the message alone.
#[verifier::external_body]
pub(crate) fn binary_encode(message: &Message) -> (r: Result<Vec<u8>, thrift_codec::Error>)
    requires
        data_supported(ThriftData::Struct(message_view(*message).body)),
    ensures
        r is Ok <==> message_fits(message_view(*message)),
        r matches Ok(bytes) ==> bytes@ == binary_bytes(message_view(*message)),
{
    let mut bytes = Vec::new();
    match message.binary_encode(&mut bytes) {
        Ok(()) => Ok(bytes),
        Err(e) => Err(e),
    }
}

} // verus!
