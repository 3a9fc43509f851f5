//! Documents as JSON text: each document is handed to the JSON library
//! part by part, and the library writes the text.

use vstd::prelude::*;
use crate::document::{
    distinct_names, lemma_document_parts, lemma_position, lemma_put_distinct, members_view,
    position_from, put, Document, Json, Member, MemberModel,
};

verus! {

broadcast use {
    vstd::seq::axiom_seq_index_decreases,
    vstd::std_specs::vec::axiom_vec_decreases_to_view,
    vstd::std_specs::vec::axiom_vec_index_decreases,
};

/// A value of the JSON library.
#[verifier::external_type_specification]
#[verifier::external_body]
pub struct ExJsonValue(serde_json::Value);

/// What a value of the JSON library holds. A real number is held in double
/// precision, so the contents are never `Json::Float`.
pub uninterp spec fn json_content(v: serde_json::Value) -> Json;

/// The text that the JSON library's pretty printer writes for a value that
/// holds `j`.
pub uninterp spec fn pretty_text(j: Json) -> Seq<char>;

/// Whether the bits are those of a double-precision number that is neither
/// an infinity nor a NaN: the eleven bits of the exponent are not all set.
pub open spec fn double_finite(bits: u64) -> bool {
    (bits / 0x10_0000_0000_0000) % 0x800 != 0x7ff
}

/// Whether the bits are those of a single-precision number that is neither
/// an infinity nor a NaN: the eight bits of the exponent are not all set.
pub open spec fn float_finite(bits: u32) -> bool {
    (bits / 0x80_0000) % 0x100 != 0xff
}

/// The bits of the double-precision number that equals the
/// single-precision number with the given bits: what widening a finite
/// single-precision number gives.
pub uninterp spec fn widened(bits: u32) -> u64;

/// A name with a value of the JSON library.
pub struct JsonMember {
    pub name: String,
    pub value: serde_json::Value,
}

impl View for JsonMember {
    type V = MemberModel;

    open spec fn view(&self) -> MemberModel {
        MemberModel { name: self.name@, value: json_content(self.value) }
    }
}

/// What a list of values of the JSON library holds.
pub open spec fn values_content(values: Seq<serde_json::Value>) -> Seq<Json> {
    Seq::new(values.len(), |i: int| json_content(values[i]))
}

/// What a list of named values of the JSON library holds.
pub open spec fn named_content(members: Seq<JsonMember>) -> Seq<MemberModel> {
    Seq::new(members.len(), |i: int| members[i]@)
}

/// `Value::Null`.
#[verifier::external_body]
fn json_null() -> (v: serde_json::Value)
    ensures
        json_content(v) == Json::Null,
{
    serde_json::Value::Null
}

/// `Value::Bool`.
#[verifier::external_body]
fn json_bool(b: bool) -> (v: serde_json::Value)
    ensures
        json_content(v) == Json::Bool(b),
{
    serde_json::Value::Bool(b)
}

/// `Value::from` on a signed number: the number.
#[verifier::external_body]
fn json_int(x: i64) -> (v: serde_json::Value)
    ensures
        json_content(v) == Json::Int(x as int),
{
    serde_json::Value::from(x)
}

/// `Value::from` on an unsigned number: the number.
#[verifier::external_body]
fn json_uint(x: u64) -> (v: serde_json::Value)
    ensures
        json_content(v) == Json::Int(x as int),
{
    serde_json::Value::from(x)
}

/// `Value::from` on the double-precision number that `Buf::get_f64_le`
/// reads from the bits: the number, and null for an infinity or a NaN.
#[verifier::external_body]
fn json_double(bits: u64) -> (v: serde_json::Value)
    ensures
        json_content(v) == (if double_finite(bits) {
            Json::Double(bits)
        } else {
            Json::Null
        }),
{
    let raw = bits.to_le_bytes();
    let mut rest: &[u8] = &raw;
    serde_json::Value::from(bytes::Buf::get_f64_le(&mut rest))
}

/// `Value::from` on the single-precision number that `Buf::get_f32_le`
/// reads from the bits. The JSON library keeps a real number in double
/// precision only: the value holds the number widened, and null for an
/// infinity or a NaN.
#[verifier::external_body]
fn json_float(bits: u32) -> (v: serde_json::Value)
    ensures
        json_content(v) == (if float_finite(bits) {
            Json::Double(widened(bits))
        } else {
            Json::Null
        }),
{
    let raw = bits.to_le_bytes();
    let mut rest: &[u8] = &raw;
    serde_json::Value::from(bytes::Buf::get_f32_le(&mut rest))
}

/// `Value::String`.
#[verifier::external_body]
fn json_string(s: String) -> (v: serde_json::Value)
    ensures
        json_content(v) == Json::String(s@),
{
    serde_json::Value::String(s)
}

/// `Value::Array`.
#[verifier::external_body]
fn json_array(items: Vec<serde_json::Value>) -> (v: serde_json::Value)
    ensures
        json_content(v) == Json::Array(values_content(items@)),
{
    serde_json::Value::Array(items)
}

/// `Value::Object` on the map collected from the members. The JSON library
/// is built to keep the order in which a map was filled; with the names
/// distinct, the map holds each member where it stood in the list.
#[verifier::external_body]
fn json_object(members: Vec<JsonMember>) -> (v: serde_json::Value)
    requires
        distinct_names(named_content(members@)),
    ensures
        json_content(v) == Json::Object(named_content(members@)),
{
    serde_json::Value::Object(members.into_iter().map(|m| (m.name, m.value)).collect())
}

/// `serde_json::to_string_pretty`, which cannot fail on a value of the
/// library's own: its keys are strings and its numbers finite.
#[verifier::external_body]
fn json_pretty(v: &serde_json::Value) -> (s: String)
    ensures
        s@ == pretty_text(json_content(*v)),
{
    serde_json::to_string_pretty(v).unwrap_or_default()
}

/// A document as it is written: a real number that is an infinity or a NaN
/// becomes null, a single-precision number is widened to double precision,
/// and of the members of an object that share a name the first decides the
/// place and the last the value.
pub open spec fn written(j: Json) -> Json
    decreases j, 0nat,
{
    match j {
        Json::Double(bits) => if double_finite(bits) {
            j
        } else {
            Json::Null
        },
        Json::Float(bits) => if float_finite(bits) {
            Json::Double(widened(bits))
        } else {
            Json::Null
        },
        Json::Array(items) => Json::Array(
            Seq::new(
                items.len(),
                |i: int|
                    if 0 <= i < items.len() {
                        written(items[i])
                    } else {
                        arbitrary()
                    },
            ),
        ),
        Json::Object(members) => Json::Object(written_members(members, members.len())),
        _ => j,
    }
}

/// The first `n` members of an object as they are written.
pub open spec fn written_members(members: Seq<MemberModel>, n: nat) -> Seq<MemberModel>
    decreases members, n,
{
    if n == 0 || n > members.len() {
        Seq::empty()
    } else {
        put(
            written_members(members, (n - 1) as nat),
            members[n - 1].name,
            written(members[n - 1].value),
        )
    }
}

/// What is written of an object has distinct names.
pub proof fn lemma_written_distinct(members: Seq<MemberModel>, n: nat)
    ensures
        distinct_names(written_members(members, n)),
    decreases n,
{
    if n == 0 || n > members.len() {
    } else {
        lemma_written_distinct(members, (n - 1) as nat);
        lemma_put_distinct(
            written_members(members, (n - 1) as nat),
            members[n - 1].name,
            written(members[n - 1].value),
        );
    }
}

fn put_named(members: &mut Vec<JsonMember>, name: String, value: serde_json::Value)
    ensures
        named_content(final(members)@) == put(
            named_content(old(members)@),
            name@,
            json_content(value),
        ),
{
    let ghost before = named_content(members@);
    let mut i: usize = 0;
    while i < members.len()
        invariant
            i <= members.len(),
            named_content(members@) == before,
            before == named_content(old(members)@),
            position_from(before, name@, 0) == position_from(before, name@, i as int),
        decreases members.len() - i,
    {
        assert(before[i as int] == members@[i as int]@);
        if members[i].name == name {
            members.set(i, JsonMember { name, value });
            assert(named_content(members@) =~= put(before, name@, json_content(value)));
            return ;
        }
        i = i + 1;
    }
    members.push(JsonMember { name, value });
    assert(named_content(members@) =~= put(before, name@, json_content(value)));
}

/// Hands a document to the JSON library.
pub fn to_json(d: &Document) -> (v: serde_json::Value)
    ensures
        json_content(v) == written(d@),
    decreases d,
{
    proof {
        lemma_document_parts(*d);
    }
    match d {
        Document::Null => json_null(),
        Document::Bool(b) => json_bool(*b),
        Document::Int(x) => json_int(*x),
        Document::UInt(x) => json_uint(*x),
        Document::Double(bits) => json_double(*bits),
        Document::Float(bits) => json_float(*bits),
        Document::String(s) => json_string(s.clone()),
        Document::Array(items) => {
            let v = json_array(items_to_json(items));
            assert(json_content(v)->Array_0 =~= written(d@)->Array_0);
            v
        },
        Document::Object(members) => members_to_json(members),
    }
}

/// Hands the items of a list to the JSON library.
pub fn items_to_json(items: &Vec<Document>) -> (out: Vec<serde_json::Value>)
    ensures
        out@.len() == items@.len(),
        forall|k: int|
            0 <= k < items@.len() ==> json_content(#[trigger] out@[k]) == written(items@[k]@),
    decreases items,
{
    let mut out: Vec<serde_json::Value> = Vec::new();
    let mut i: usize = 0;
    while i < items.len()
        invariant
            i <= items.len(),
            out@.len() == i,
            forall|k: int| 0 <= k < i ==> json_content(#[trigger] out@[k]) == written(items@[k]@),
        decreases items.len() - i,
    {
        let item = to_json(&items[i]);
        out.push(item);
        i = i + 1;
    }
    out
}

/// Hands the members of an object to the JSON library.
pub fn members_to_json(members: &Vec<Member>) -> (v: serde_json::Value)
    ensures
        json_content(v) == written(Json::Object(members_view(members@))),
    decreases members,
{
    let mut out: Vec<JsonMember> = Vec::new();
    let mut i: usize = 0;
    assert(named_content(out@) =~= Seq::<MemberModel>::empty());
    while i < members.len()
        invariant
            i <= members.len(),
            named_content(out@) == written_members(members_view(members@), i as nat),
        decreases members.len() - i,
    {
        let member = &members[i];
        assert(members_view(members@)[i as int] == member@);
        let value = to_json(&member.value);
        put_named(&mut out, member.name.clone(), value);
        i = i + 1;
    }
    proof {
        lemma_written_distinct(members_view(members@), members.len() as nat);
    }
    json_object(out)
}

/// Writes a value of the JSON library as indented text.
pub fn pretty(v: &serde_json::Value) -> (s: String)
    ensures
        s@ == pretty_text(json_content(*v)),
{
    json_pretty(v)
}

} // verus!
