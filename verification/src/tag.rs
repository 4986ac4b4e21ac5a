//! Tags: the key and value pairs that annotate spans, logs and processes.

use crate::thrift::data_view;
use crate::thrift::field_data;
use crate::thrift::field_view;
use crate::thrift::ThriftData;
use crate::thrift::ThriftField;
use thrift_codec::data::Data;
use thrift_codec::data::Field;
use vstd::prelude::*;

verus! {

/// A double-precision number, carried as the thrift value that goes on the
/// wire.
///
/// This crate never computes with the number. It is made and read outside, and
/// here it is known by its IEEE 754 bit pattern only.
#[derive(Debug)]
pub struct DoubleValue {
    data: Data,
}

impl Clone for DoubleValue {
    fn clone(&self) -> (r: Self)
        ensures
            r.bits() == self.bits(),
    {
        proof {
            use_type_invariant(self);
        }
        DoubleValue { data: self.data.clone() }
    }
}

impl DoubleValue {
    #[verifier::type_invariant]
    spec fn holds_double(self) -> bool {
        data_view(self.data) is Double
    }

    /// The bit pattern of the number.
    pub closed spec fn bits(&self) -> u64 {
        data_view(self.data)->Double_0
    }

    /// Takes `data` if it is a double, and nothing else.
    pub fn new(data: Data) -> (r: Option<DoubleValue>)
        ensures
            r is Some <==> data_view(data) is Double,
            r matches Some(value) ==> data_view(data) == ThriftData::Double(value.bits()),
    {
        if crate::thrift::is_double(&data) {
            Some(DoubleValue { data })
        } else {
            None
        }
    }

    /// The thrift value that holds the number.
    pub fn data(&self) -> (r: &Data)
        ensures
            data_view(*r) == ThriftData::Double(self.bits()),
    {
        proof {
            use_type_invariant(self);
        }
        &self.data
    }

    /// A thrift field with the given identifier that holds the number.
    pub(crate) fn to_field(&self, id: i16) -> (r: Field)
        ensures
            field_view(r) == (ThriftField { id, data: ThriftData::Double(self.bits()) }),
    {
        proof {
            use_type_invariant(self);
        }
        field_data(id, self.data.clone())
    }
}

/// The value of a tag.
#[derive(Debug, Clone)]
pub enum TagValue {
    String(String),
    Bool(bool),
    Long(i64),
    Double(DoubleValue),
    Binary(Vec<u8>),
}

/// What a tag value holds.
pub enum TagValueView {
    String(Seq<char>),
    Bool(bool),
    Long(i64),
    Double(u64),
    Binary(Seq<u8>),
}

impl View for TagValue {
    type V = TagValueView;

    open spec fn view(&self) -> TagValueView {
        match *self {
            TagValue::String(text) => TagValueView::String(text@),
            TagValue::Bool(flag) => TagValueView::Bool(flag),
            TagValue::Long(number) => TagValueView::Long(number),
            TagValue::Double(number) => TagValueView::Double(number.bits()),
            TagValue::Binary(bytes) => TagValueView::Binary(bytes@),
        }
    }
}

/// A key with a typed value.
///
/// Keys need not be unique among the tags of one span: every tag is kept and
/// every tag is reported.
#[derive(Debug, Clone)]
pub struct Tag {
    pub key: String,
    pub value: TagValue,
}

/// What a tag holds.
pub struct TagView {
    pub key: Seq<char>,
    pub value: TagValueView,
}

impl View for Tag {
    type V = TagView;

    open spec fn view(&self) -> TagView {
        TagView { key: self.key@, value: self.value@ }
    }
}

/// What each tag of a sequence holds.
pub open spec fn tags_view(tags: Seq<Tag>) -> Seq<TagView> {
    tags.map_values(|tag: Tag| tag@)
}

impl Tag {
    /// A tag with the given key and value.
    pub fn new(key: &str, value: TagValue) -> (r: Tag)
        ensures
            r@ == (TagView { key: key@, value: value@ }),
    {
        Tag { key: key.to_owned(), value }
    }

    /// A tag whose value is the text `value`.
    pub fn string(key: &str, value: &str) -> (r: Tag)
        ensures
            r@ == (TagView { key: key@, value: TagValueView::String(value@) }),
    {
        Tag { key: key.to_owned(), value: TagValue::String(value.to_owned()) }
    }

    /// A tag whose value is the truth value `value`.
    pub fn bool(key: &str, value: bool) -> (r: Tag)
        ensures
            r@ == (TagView { key: key@, value: TagValueView::Bool(value) }),
    {
        Tag { key: key.to_owned(), value: TagValue::Bool(value) }
    }

    /// A tag whose value is the integer `value`.
    pub fn long(key: &str, value: i64) -> (r: Tag)
        ensures
            r@ == (TagView { key: key@, value: TagValueView::Long(value) }),
    {
        Tag { key: key.to_owned(), value: TagValue::Long(value) }
    }

    /// A tag whose value is the double-precision number `value`.
    pub fn double(key: &str, value: DoubleValue) -> (r: Tag)
        ensures
            r@ == (TagView { key: key@, value: TagValueView::Double(value.bits()) }),
    {
        Tag { key: key.to_owned(), value: TagValue::Double(value) }
    }

    /// A tag whose value is the byte string `value`.
    pub fn binary(key: &str, value: Vec<u8>) -> (r: Tag)
        ensures
            r@ == (TagView { key: key@, value: TagValueView::Binary(value@) }),
    {
        Tag { key: key.to_owned(), value: TagValue::Binary(value) }
    }

    /// The key of this tag.
    pub fn key(&self) -> (r: &str)
        ensures
            r@ == self@.key,
    {
        self.key.as_str()
    }

    /// The value of this tag.
    pub fn value(&self) -> (r: &TagValue)
        ensures
            r@ == self@.value,
    {
        &self.value
    }
}

} // verus!
