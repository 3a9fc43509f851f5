//! Decoded values: what the bytes of a stored value hold when read as a
//! message of the schema. Nothing is dropped: what the schema does not
//! declare is kept as unknown, what is cut short as incomplete.

use vstd::prelude::*;
use protofish::decode as pf;
use protofish::context::{Context, EnumRef, MessageRef};
use crate::registry::{Schema, SchemaRegistry};
use crate::wire::{
    find_cut, lemma_cut_bounds, lemma_safe_is_uncut, lemma_uncut_is_safe, message_safe, safe_cut,
    MAX_DEPTH,
};

verus! {

broadcast use {
    vstd::seq::axiom_seq_index_decreases,
    vstd::std_specs::vec::axiom_vec_decreases_to_view,
};

/// A value as the decoder gives it.
#[verifier::external_type_specification]
#[verifier::external_body]
pub struct ExValue(pf::Value);

/// A message as the decoder gives it.
#[verifier::external_type_specification]
#[verifier::external_body]
pub struct ExMessageValue(pf::MessageValue);

/// A repeated scalar field sent as one block.
#[derive(Debug, PartialEq)]
pub enum PackedArray {
    /// The bits of each `double`.
    Double(Vec<u64>),
    /// The bits of each `float`.
    Float(Vec<u32>),
    Int32(Vec<i32>),
    Int64(Vec<i64>),
    UInt32(Vec<u32>),
    UInt64(Vec<u64>),
    SInt32(Vec<i32>),
    SInt64(Vec<i64>),
    Fixed32(Vec<u32>),
    Fixed64(Vec<u64>),
    SFixed32(Vec<i32>),
    SFixed64(Vec<i64>),
    Bool(Vec<bool>),
}

/// A field that the schema does not declare, or declares with another wire
/// type: what its wire type alone tells of it.
#[derive(Debug, PartialEq)]
pub enum UnknownValue {
    Varint(u128),
    Fixed64(u64),
    VariableLength(Vec<u8>),
    Fixed32(u32),
    /// A wire type that does not exist, and the rest of the input.
    Invalid(u8, Vec<u8>),
}

/// A number of an enum of the schema.
#[derive(Debug, Clone, Copy, PartialEq)]
pub struct EnumValue {
    pub enum_ref: EnumRef,
    pub value: i64,
}

/// A field as it was read: its number and its value.
#[derive(Debug, PartialEq)]
pub struct DecodedField {
    pub number: u64,
    pub value: DecodedValue,
}

/// A message as it was read: its fields in the order of the input, and
/// what was left where the input ends within a tag.
#[derive(Debug, PartialEq)]
pub struct DecodedMessage {
    pub msg_ref: MessageRef,
    pub fields: Vec<DecodedField>,
    pub garbage: Option<Vec<u8>>,
}

/// A decoded value.
#[derive(Debug, PartialEq)]
pub enum DecodedValue {
    /// The bits of a `double`.
    Double(u64),
    /// The bits of a `float`.
    Float(u32),
    Int32(i32),
    Int64(i64),
    UInt32(u32),
    UInt64(u64),
    SInt32(i32),
    SInt64(i64),
    Fixed32(u32),
    Fixed64(u64),
    SFixed32(i32),
    SFixed64(i64),
    Bool(bool),
    String(String),
    Bytes(Vec<u8>),
    Packed(PackedArray),
    Message(Box<DecodedMessage>),
    Enum(EnumValue),
    /// The wire type of a value that the input ends within, and the bytes
    /// that were left.
    Incomplete(u8, Vec<u8>),
    Unknown(UnknownValue),
}

/// A packed block, as a mathematical value.
pub enum PackedModel {
    Double(Seq<u64>),
    Float(Seq<u32>),
    Int32(Seq<i32>),
    Int64(Seq<i64>),
    UInt32(Seq<u32>),
    UInt64(Seq<u64>),
    SInt32(Seq<i32>),
    SInt64(Seq<i64>),
    Fixed32(Seq<u32>),
    Fixed64(Seq<u64>),
    SFixed32(Seq<i32>),
    SFixed64(Seq<i64>),
    Bool(Seq<bool>),
}

/// An unknown field, as a mathematical value.
pub enum UnknownModel {
    Varint(u128),
    Fixed64(u64),
    VariableLength(Seq<u8>),
    Fixed32(u32),
    Invalid(u8, Seq<u8>),
}

/// A field as it was read, as a mathematical value.
pub struct FieldValueModel {
    pub number: u64,
    pub value: ValueModel,
}

/// A message as it was read, as a mathematical value.
pub struct MessageModel {
    pub msg_ref: MessageRef,
    pub fields: Seq<FieldValueModel>,
    pub garbage: Option<Seq<u8>>,
}

/// A decoded value, as a mathematical value.
pub enum ValueModel {
    Double(u64),
    Float(u32),
    Int32(i32),
    Int64(i64),
    UInt32(u32),
    UInt64(u64),
    SInt32(i32),
    SInt64(i64),
    Fixed32(u32),
    Fixed64(u64),
    SFixed32(i32),
    SFixed64(i64),
    Bool(bool),
    String(Seq<char>),
    Bytes(Seq<u8>),
    Packed(PackedModel),
    Message(MessageModel),
    Enum(EnumRef, i64),
    Incomplete(u8, Seq<u8>),
    Unknown(UnknownModel),
}

impl View for PackedArray {
    type V = PackedModel;

    open spec fn view(&self) -> PackedModel {
        match self {
            PackedArray::Double(v) => PackedModel::Double(v@),
            PackedArray::Float(v) => PackedModel::Float(v@),
            PackedArray::Int32(v) => PackedModel::Int32(v@),
            PackedArray::Int64(v) => PackedModel::Int64(v@),
            PackedArray::UInt32(v) => PackedModel::UInt32(v@),
            PackedArray::UInt64(v) => PackedModel::UInt64(v@),
            PackedArray::SInt32(v) => PackedModel::SInt32(v@),
            PackedArray::SInt64(v) => PackedModel::SInt64(v@),
            PackedArray::Fixed32(v) => PackedModel::Fixed32(v@),
            PackedArray::Fixed64(v) => PackedModel::Fixed64(v@),
            PackedArray::SFixed32(v) => PackedModel::SFixed32(v@),
            PackedArray::SFixed64(v) => PackedModel::SFixed64(v@),
            PackedArray::Bool(v) => PackedModel::Bool(v@),
        }
    }
}

impl View for UnknownValue {
    type V = UnknownModel;

    open spec fn view(&self) -> UnknownModel {
        match self {
            UnknownValue::Varint(v) => UnknownModel::Varint(*v),
            UnknownValue::Fixed64(v) => UnknownModel::Fixed64(*v),
            UnknownValue::VariableLength(b) => UnknownModel::VariableLength(b@),
            UnknownValue::Fixed32(v) => UnknownModel::Fixed32(*v),
            UnknownValue::Invalid(t, b) => UnknownModel::Invalid(*t, b@),
        }
    }
}

/// The mathematical value of optional bytes.
pub open spec fn bytes_view(o: Option<Vec<u8>>) -> Option<Seq<u8>> {
    match o {
        Some(b) => Some(b@),
        None => None,
    }
}

/// The mathematical value of a decoded value.
pub open spec fn value_view(v: DecodedValue) -> ValueModel
    decreases v,
{
    match v {
        DecodedValue::Double(x) => ValueModel::Double(x),
        DecodedValue::Float(x) => ValueModel::Float(x),
        DecodedValue::Int32(x) => ValueModel::Int32(x),
        DecodedValue::Int64(x) => ValueModel::Int64(x),
        DecodedValue::UInt32(x) => ValueModel::UInt32(x),
        DecodedValue::UInt64(x) => ValueModel::UInt64(x),
        DecodedValue::SInt32(x) => ValueModel::SInt32(x),
        DecodedValue::SInt64(x) => ValueModel::SInt64(x),
        DecodedValue::Fixed32(x) => ValueModel::Fixed32(x),
        DecodedValue::Fixed64(x) => ValueModel::Fixed64(x),
        DecodedValue::SFixed32(x) => ValueModel::SFixed32(x),
        DecodedValue::SFixed64(x) => ValueModel::SFixed64(x),
        DecodedValue::Bool(x) => ValueModel::Bool(x),
        DecodedValue::String(s) => ValueModel::String(s@),
        DecodedValue::Bytes(b) => ValueModel::Bytes(b@),
        DecodedValue::Packed(p) => ValueModel::Packed(p@),
        DecodedValue::Message(m) => ValueModel::Message(message_view(*m)),
        DecodedValue::Enum(e) => ValueModel::Enum(e.enum_ref, e.value),
        DecodedValue::Incomplete(t, b) => ValueModel::Incomplete(t, b@),
        DecodedValue::Unknown(u) => ValueModel::Unknown(u@),
    }
}

/// The mathematical value of a decoded message.
pub open spec fn message_view(m: DecodedMessage) -> MessageModel
    decreases m,
{
    MessageModel {
        msg_ref: m.msg_ref,
        fields: Seq::new(
            m.fields@.len(),
            |i: int|
                if 0 <= i < m.fields@.len() {
                    FieldValueModel {
                        number: m.fields@[i].number,
                        value: value_view(m.fields@[i].value),
                    }
                } else {
                    arbitrary()
                },
        ),
        garbage: bytes_view(m.garbage),
    }
}

impl View for DecodedValue {
    type V = ValueModel;

    open spec fn view(&self) -> ValueModel {
        value_view(*self)
    }
}

impl View for DecodedField {
    type V = FieldValueModel;

    open spec fn view(&self) -> FieldValueModel {
        FieldValueModel { number: self.number, value: value_view(self.value) }
    }
}

impl View for DecodedMessage {
    type V = MessageModel;

    open spec fn view(&self) -> MessageModel {
        message_view(*self)
    }
}

impl ValueModel {
    /// One of the five 32-bit integer kinds, or a boolean.
    pub open spec fn is_narrow(self) -> bool {
        self is Int32 || self is UInt32 || self is SInt32 || self is Fixed32 || self is SFixed32
            || self is Bool
    }

    /// One of the five 64-bit integer kinds.
    pub open spec fn is_wide(self) -> bool {
        self is Int64 || self is UInt64 || self is SInt64 || self is Fixed64 || self is SFixed64
    }

    /// A real number, text, bytes, an enum number or an incomplete value.
    pub open spec fn is_plain(self) -> bool {
        self is Double || self is Float || self is String || self is Bytes || self is Enum
            || self is Incomplete
    }
}

impl PackedModel {
    /// Items of one of the five 32-bit integer kinds, or booleans.
    pub open spec fn is_narrow(self) -> bool {
        self is Int32 || self is UInt32 || self is SInt32 || self is Fixed32 || self is SFixed32
            || self is Bool
    }

    /// Items of one of the five 64-bit integer kinds.
    pub open spec fn is_wide(self) -> bool {
        self is Int64 || self is UInt64 || self is SInt64 || self is Fixed64 || self is SFixed64
    }

    /// Real numbers.
    pub open spec fn is_real(self) -> bool {
        self is Double || self is Float
    }
}

/// What a value of the decoder holds.
pub uninterp spec fn value_content(v: pf::Value) -> ValueModel;

/// What a message of the decoder holds.
pub uninterp spec fn message_content(m: pf::MessageValue) -> MessageModel;

/// What the decoder makes of the bytes, read as message `m` of the context.
pub uninterp spec fn decoded(ctx: Context, m: MessageRef, bytes: Seq<u8>) -> MessageModel;

/// Tells apart the variants `Int32`, `UInt32`, `SInt32`, `Fixed32`,
/// `SFixed32` and `Bool` of the decoder's `Value` and hands the number
/// over; `None` for every other variant.
#[verifier::external_body]
fn lift_narrow(v: &pf::Value) -> (r: Option<DecodedValue>)
    ensures
        r is Some <==> value_content(*v).is_narrow(),
        r matches Some(d) ==> d@ == value_content(*v),
{
    match v {
        pf::Value::Int32(x) => Some(DecodedValue::Int32(*x)),
        pf::Value::UInt32(x) => Some(DecodedValue::UInt32(*x)),
        pf::Value::SInt32(x) => Some(DecodedValue::SInt32(*x)),
        pf::Value::Fixed32(x) => Some(DecodedValue::Fixed32(*x)),
        pf::Value::SFixed32(x) => Some(DecodedValue::SFixed32(*x)),
        pf::Value::Bool(x) => Some(DecodedValue::Bool(*x)),
        _ => None,
    }
}

/// Tells apart the variants `Int64`, `UInt64`, `SInt64`, `Fixed64` and
/// `SFixed64` of the decoder's `Value` and hands the number over; `None`
/// for every other variant.
#[verifier::external_body]
fn lift_wide(v: &pf::Value) -> (r: Option<DecodedValue>)
    ensures
        r is Some <==> value_content(*v).is_wide(),
        r matches Some(d) ==> d@ == value_content(*v),
{
    match v {
        pf::Value::Int64(x) => Some(DecodedValue::Int64(*x)),
        pf::Value::UInt64(x) => Some(DecodedValue::UInt64(*x)),
        pf::Value::SInt64(x) => Some(DecodedValue::SInt64(*x)),
        pf::Value::Fixed64(x) => Some(DecodedValue::Fixed64(*x)),
        pf::Value::SFixed64(x) => Some(DecodedValue::SFixed64(*x)),
        _ => None,
    }
}

/// Tells apart the variants `Double`, `Float`, `String`, `Bytes`, `Enum`
/// and `Incomplete` of the decoder's `Value` and hands over what they
/// hold, a real number by its bits (`to_bits`); `None` for every other
/// variant.
#[verifier::external_body]
fn lift_plain(v: &pf::Value) -> (r: Option<DecodedValue>)
    ensures
        r is Some <==> value_content(*v).is_plain(),
        r matches Some(d) ==> d@ == value_content(*v),
{
    match v {
        pf::Value::Double(x) => Some(DecodedValue::Double(x.to_bits())),
        pf::Value::Float(x) => Some(DecodedValue::Float(x.to_bits())),
        pf::Value::String(s) => Some(DecodedValue::String(s.clone())),
        pf::Value::Bytes(b) => Some(DecodedValue::Bytes(b.to_vec())),
        pf::Value::Enum(e) => Some(DecodedValue::Enum(EnumValue { enum_ref: e.enum_ref, value: e.value })),
        pf::Value::Incomplete(t, b) => Some(DecodedValue::Incomplete(*t, b.to_vec())),
        _ => None,
    }
}

/// Tells apart the variants of the decoder's `PackedArray` that hold
/// 32-bit integers or booleans, and hands the items over; `None` for
/// every other value.
#[verifier::external_body]
fn lift_packed_narrow(v: &pf::Value) -> (r: Option<PackedArray>)
    ensures
        r is Some <==> (value_content(*v) matches ValueModel::Packed(p) && p.is_narrow()),
        r matches Some(a) ==> value_content(*v) == ValueModel::Packed(a@),
{
    match v {
        pf::Value::Packed(pf::PackedArray::Int32(x)) => Some(PackedArray::Int32(x.clone())),
        pf::Value::Packed(pf::PackedArray::UInt32(x)) => Some(PackedArray::UInt32(x.clone())),
        pf::Value::Packed(pf::PackedArray::SInt32(x)) => Some(PackedArray::SInt32(x.clone())),
        pf::Value::Packed(pf::PackedArray::Fixed32(x)) => Some(PackedArray::Fixed32(x.clone())),
        pf::Value::Packed(pf::PackedArray::SFixed32(x)) => Some(PackedArray::SFixed32(x.clone())),
        pf::Value::Packed(pf::PackedArray::Bool(x)) => Some(PackedArray::Bool(x.clone())),
        _ => None,
    }
}

/// Tells apart the variants of the decoder's `PackedArray` that hold
/// 64-bit integers, and hands the items over; `None` for every other
/// value.
#[verifier::external_body]
fn lift_packed_wide(v: &pf::Value) -> (r: Option<PackedArray>)
    ensures
        r is Some <==> (value_content(*v) matches ValueModel::Packed(p) && p.is_wide()),
        r matches Some(a) ==> value_content(*v) == ValueModel::Packed(a@),
{
    match v {
        pf::Value::Packed(pf::PackedArray::Int64(x)) => Some(PackedArray::Int64(x.clone())),
        pf::Value::Packed(pf::PackedArray::UInt64(x)) => Some(PackedArray::UInt64(x.clone())),
        pf::Value::Packed(pf::PackedArray::SInt64(x)) => Some(PackedArray::SInt64(x.clone())),
        pf::Value::Packed(pf::PackedArray::Fixed64(x)) => Some(PackedArray::Fixed64(x.clone())),
        pf::Value::Packed(pf::PackedArray::SFixed64(x)) => Some(PackedArray::SFixed64(x.clone())),
        _ => None,
    }
}

/// Tells apart the variants `Double` and `Float` of the decoder's
/// `PackedArray`, and hands the items over, each by its bits (`to_bits`);
/// `None` for every other value.
#[verifier::external_body]
fn lift_packed_real(v: &pf::Value) -> (r: Option<PackedArray>)
    ensures
        r is Some <==> (value_content(*v) matches ValueModel::Packed(p) && p.is_real()),
        r matches Some(a) ==> value_content(*v) == ValueModel::Packed(a@),
{
    match v {
        pf::Value::Packed(pf::PackedArray::Double(x)) => Some(
            PackedArray::Double(x.iter().map(|item| item.to_bits()).collect()),
        ),
        pf::Value::Packed(pf::PackedArray::Float(x)) => Some(
            PackedArray::Float(x.iter().map(|item| item.to_bits()).collect()),
        ),
        _ => None,
    }
}

/// Tells apart the variants of the decoder's `UnknownValue` and hands over
/// what they hold; `None` for a value that is not `Unknown`.
#[verifier::external_body]
fn lift_unknown(v: &pf::Value) -> (r: Option<UnknownValue>)
    ensures
        r is Some <==> value_content(*v) is Unknown,
        r matches Some(u) ==> value_content(*v) == ValueModel::Unknown(u@),
{
    match v {
        pf::Value::Unknown(pf::UnknownValue::Varint(x)) => Some(UnknownValue::Varint(*x)),
        pf::Value::Unknown(pf::UnknownValue::Fixed64(x)) => Some(UnknownValue::Fixed64(*x)),
        pf::Value::Unknown(pf::UnknownValue::VariableLength(b)) => Some(UnknownValue::VariableLength(b.to_vec())),
        pf::Value::Unknown(pf::UnknownValue::Fixed32(x)) => Some(UnknownValue::Fixed32(*x)),
        pf::Value::Unknown(pf::UnknownValue::Invalid(t, b)) => Some(UnknownValue::Invalid(*t, b.to_vec())),
        _ => None,
    }
}

/// The message within the variant `Message` of the decoder's `Value`;
/// `None` for every other variant.
#[verifier::external_body]
fn nested_message(v: &pf::Value) -> (r: Option<&pf::MessageValue>)
    ensures
        r is Some <==> value_content(*v) is Message,
        r matches Some(m) ==> value_content(*v) == ValueModel::Message(message_content(*m)),
{
    match v {
        pf::Value::Message(m) => Some(&**m),
        _ => None,
    }
}

/// The field `msg_ref` of the decoder's `MessageValue`.
#[verifier::external_body]
fn message_reference(m: &pf::MessageValue) -> (r: MessageRef)
    ensures
        r == message_content(*m).msg_ref,
{
    m.msg_ref
}

/// The length of the field `fields` of the decoder's `MessageValue`.
#[verifier::external_body]
fn message_field_count(m: &pf::MessageValue) -> (n: usize)
    ensures
        n == message_content(*m).fields.len(),
{
    m.fields.len()
}

/// The field `number` of the `i`-th of the `fields` of the decoder's
/// `MessageValue`.
#[verifier::external_body]
fn message_field_number(m: &pf::MessageValue, i: usize) -> (n: u64)
    requires
        i < message_content(*m).fields.len(),
    ensures
        n == message_content(*m).fields[i as int].number,
{
    m.fields[i].number
}

/// The field `value` of the `i`-th of the `fields` of the decoder's
/// `MessageValue`.
#[verifier::external_body]
fn message_field_value(m: &pf::MessageValue, i: usize) -> (v: &pf::Value)
    requires
        i < message_content(*m).fields.len(),
    ensures
        value_content(*v) == message_content(*m).fields[i as int].value,
{
    &m.fields[i].value
}

/// The field `garbage` of the decoder's `MessageValue`: what was left
/// where the input ends within a tag.
#[verifier::external_body]
fn message_garbage(m: &pf::MessageValue) -> (g: Option<Vec<u8>>)
    ensures
        bytes_view(g) == message_content(*m).garbage,
{
    m.garbage.as_ref().map(|b| b.to_vec())
}

/// Takes a value of the decoder over into the library's own form.
fn lift_value(v: &pf::Value) -> (r: DecodedValue)
    ensures
        r@ == value_content(*v),
    decreases value_content(*v),
{
    if let Some(d) = lift_narrow(v) {
        d
    } else if let Some(d) = lift_wide(v) {
        d
    } else if let Some(d) = lift_plain(v) {
        d
    } else if let Some(a) = lift_packed_narrow(v) {
        DecodedValue::Packed(a)
    } else if let Some(a) = lift_packed_wide(v) {
        DecodedValue::Packed(a)
    } else if let Some(a) = lift_packed_real(v) {
        DecodedValue::Packed(a)
    } else if let Some(u) = lift_unknown(v) {
        DecodedValue::Unknown(u)
    } else {
        match nested_message(v) {
            Some(m) => {
                proof {
                    let whole = value_content(*v);
                    assert(whole is Message);
                    assert(whole->Message_0 == message_content(*m));
                    assert(decreases_to!(whole => whole->Message_0));
                }
                DecodedValue::Message(Box::new(lift_message(m)))
            },
            None => {
                assert(false);
                vstd::pervasive::unreached()
            },
        }
    }
}

/// Takes a message of the decoder over into the library's own form.
fn lift_message(m: &pf::MessageValue) -> (r: DecodedMessage)
    ensures
        r@ == message_content(*m),
    decreases message_content(*m),
{
    let count = message_field_count(m);
    let mut fields: Vec<DecodedField> = Vec::new();
    let mut i: usize = 0;
    while i < count
        invariant
            count == message_content(*m).fields.len(),
            i <= count,
            fields@.len() == i,
            forall|k: int|
                0 <= k < i ==> (#[trigger] fields@[k])@ == message_content(*m).fields[k],
        decreases count - i,
    {
        let number = message_field_number(m, i);
        let value = lift_value(message_field_value(m, i));
        fields.push(DecodedField { number, value });
        i = i + 1;
    }
    let r = DecodedMessage {
        msg_ref: message_reference(m),
        fields,
        garbage: message_garbage(m),
    };
    assert forall|k: int| 0 <= k < r@.fields.len() implies r@.fields[k] == message_content(
        *m,
    ).fields[k] by {
        assert(r.fields@[k]@ == message_content(*m).fields[k]);
    }
    assert(r@.fields =~= message_content(*m).fields);
    r
}

/// Every reference in the value is one of the schema.
pub open spec fn value_known(schema: Schema, v: ValueModel) -> bool
    decreases v,
{
    match v {
        ValueModel::Message(inner) => message_known(schema, inner),
        ValueModel::Enum(e, _) => schema.enums.contains(e),
        _ => true,
    }
}

/// The message is one of the schema, and so is every reference in its
/// fields.
pub open spec fn message_known(schema: Schema, m: MessageModel) -> bool
    decreases m,
{
    &&& schema.messages.contains(m.msg_ref)
    &&& forall|i: int|
        0 <= i < m.fields.len() ==> value_known(schema, (#[trigger] m.fields[i]).value)
}

/// Every field whose number its message does not declare is marked unknown
/// or incomplete, in the message and in the messages nested in it.
pub open spec fn absent_marked(schema: Schema, m: MessageModel) -> bool
    decreases m,
{
    forall|i: int|
        0 <= i < m.fields.len() ==> {
            let f = #[trigger] m.fields[i];
            &&& schema.field(m.msg_ref, f.number) is None ==> f.value is Unknown
                || f.value is Incomplete
            &&& f.value matches ValueModel::Message(inner) ==> absent_marked(schema, inner)
        }
}

/// Whether the decoder can take the bytes as message `m` of the schema.
pub open spec fn decodable(schema: Schema, m: MessageRef, bytes: Seq<u8>) -> bool {
    message_safe(schema, m, bytes, 0, bytes.len() as int, MAX_DEPTH as nat)
}

/// `Context::decode`. The decoder panics on a reference that its context
/// does not resolve, and on the inputs that `decodable` leaves out; both
/// are asked for here. The result is named, and three things are said of
/// it that the decoder's source shows: it is the message asked for; a field
/// whose number the message does not declare comes out as unknown or
/// incomplete; and the references in it are those of the context's own
/// fields.
#[verifier::external_body]
fn context_decode(ctx: &Context, m: MessageRef, bytes: &[u8]) -> (r: pf::MessageValue)
    requires
        SchemaRegistry::schema_of(*ctx).closed(),
        SchemaRegistry::schema_of(*ctx).messages.contains(m),
        decodable(SchemaRegistry::schema_of(*ctx), m, bytes@),
    ensures
        message_content(r) == decoded(*ctx, m, bytes@),
        message_content(r).msg_ref == m,
        message_known(SchemaRegistry::schema_of(*ctx), message_content(r)),
        absent_marked(SchemaRegistry::schema_of(*ctx), message_content(r)),
{
    ctx.decode(m, bytes)
}

/// A message with more bytes left over: they follow what it was left with.
pub open spec fn with_rest(m: MessageModel, rest: Seq<u8>) -> MessageModel {
    if rest.len() == 0 {
        m
    } else {
        MessageModel {
            msg_ref: m.msg_ref,
            fields: m.fields,
            garbage: Some(
                match m.garbage {
                    Some(left) => left + rest,
                    None => rest,
                },
            ),
        }
    }
}

/// Up to where the bytes are decoded as message `m`: the bytes are cut at
/// the first field that the decoder cannot take, and what is left is cut
/// again, until nothing is cut any more.
pub open spec fn decode_cut(schema: Schema, m: MessageRef, bytes: Seq<u8>) -> int
    decreases bytes.len(),
{
    let cut = safe_cut(schema, m, bytes, 0, bytes.len() as int, MAX_DEPTH as nat);
    if 0 <= cut < bytes.len() {
        decode_cut(schema, m, bytes.subrange(0, cut))
    } else {
        bytes.len() as int
    }
}

/// The cut lies within the bytes, and the decoder can take the bytes up to
/// it.
pub proof fn lemma_cut_is_decodable(schema: Schema, m: MessageRef, bytes: Seq<u8>)
    ensures
        0 <= decode_cut(schema, m, bytes) <= bytes.len(),
        decodable(schema, m, bytes.subrange(0, decode_cut(schema, m, bytes))),
    decreases bytes.len(),
{
    let cut = safe_cut(schema, m, bytes, 0, bytes.len() as int, MAX_DEPTH as nat);
    if 0 <= cut < bytes.len() {
        let head = bytes.subrange(0, cut);
        lemma_cut_is_decodable(schema, m, head);
        assert(head.subrange(0, decode_cut(schema, m, head)) =~= bytes.subrange(
            0,
            decode_cut(schema, m, head),
        ));
    } else {
        lemma_cut_bounds(schema, m, bytes, 0, bytes.len() as int, MAX_DEPTH as nat);
        lemma_uncut_is_safe(schema, m, bytes, 0, bytes.len() as int, MAX_DEPTH as nat);
        assert(bytes.subrange(0, bytes.len() as int) =~= bytes);
    }
}

/// What decoding gives: the decoder's result on the bytes up to the cut,
/// left with the bytes from the cut on. Bytes that a message is left with
/// are shown marked as incomplete.
pub open spec fn decode_spec(ctx: Context, schema: Schema, m: MessageRef, bytes: Seq<u8>)
    -> MessageModel {
    let cut = decode_cut(schema, m, bytes);
    with_rest(decoded(ctx, m, bytes.subrange(0, cut)), bytes.subrange(cut, bytes.len() as int))
}

/// Bytes that the decoder can take throughout are decoded whole.
pub proof fn lemma_decodable_is_decoded_whole(
    ctx: Context,
    schema: Schema,
    m: MessageRef,
    bytes: Seq<u8>,
)
    requires
        decodable(schema, m, bytes),
    ensures
        decode_spec(ctx, schema, m, bytes) == decoded(ctx, m, bytes),
{
    lemma_safe_is_uncut(schema, m, bytes, 0, bytes.len() as int, MAX_DEPTH as nat);
    assert(bytes.subrange(0, bytes.len() as int) =~= bytes);
}

/// Decodes bytes as message `m` of the registry. Any bytes are taken: the
/// fields before the first that the decoder cannot take are decoded, and
/// the bytes from there on are what the message is left with. The
/// references in the result are the registry's, and a field that the
/// message does not declare is marked unknown or incomplete.
pub fn decode_message(registry: &SchemaRegistry, m: MessageRef, bytes: &[u8]) -> (r:
    DecodedMessage)
    requires
        registry.wf(),
        registry@.messages.contains(m),
    ensures
        r@ == decode_spec(registry.context(), registry@, m, bytes@),
        r@.msg_ref == m,
        message_known(registry@, r@),
        absent_marked(registry@, r@),
{
    let mut end = bytes.len();
    assert(bytes@.subrange(0, end as int) =~= bytes@);
    loop
        invariant
            registry.wf(),
            registry@.messages.contains(m),
            end <= bytes@.len(),
            decode_cut(registry@, m, bytes@) == decode_cut(
                registry@,
                m,
                bytes@.subrange(0, end as int),
            ),
        ensures
            end <= bytes@.len(),
            decode_cut(registry@, m, bytes@) == end,
            decodable(registry@, m, bytes@.subrange(0, end as int)),
        decreases end,
    {
        let head = vstd::slice::slice_subrange(bytes, 0, end);
        let cut = find_cut(registry, m, head, 0, end, MAX_DEPTH);
        if cut == end {
            proof {
                lemma_uncut_is_safe(registry@, m, head@, 0, end as int, MAX_DEPTH as nat);
            }
            break ;
        }
        assert(head@.subrange(0, cut as int) =~= bytes@.subrange(0, cut as int));
        end = cut;
    }
    let head = vstd::slice::slice_subrange(bytes, 0, end);
    let raw = context_decode(registry.as_context(), m, head);
    let mut r = lift_message(&raw);
    let ghost read = r@;
    if end < bytes.len() {
        let mut rest = vstd::slice::slice_to_vec(
            vstd::slice::slice_subrange(bytes, end, bytes.len()),
        );
        let left = match r.garbage {
            Some(mut left) => {
                left.append(&mut rest);
                left
            },
            None => rest,
        };
        r = DecodedMessage { msg_ref: r.msg_ref, fields: r.fields, garbage: Some(left) };
    }
    proof {
        assert(r@.fields =~= read.fields);
        assert(r@ == with_rest(read, bytes@.subrange(end as int, bytes@.len() as int)));
    }
    r
}

} // verus!
