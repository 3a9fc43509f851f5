//! From decoded values to documents: numbers stay numbers, bytes become
//! lists of numbers, messages become objects under their fields' names,
//! enum numbers become their symbols. Nothing that was decoded is left out.

use vstd::prelude::*;
use vstd::string::StringExecFns;
use protofish::decode as pf;
use protofish::context::MessageRef;
use crate::decode::{
    message_known, value_known, DecodedField, DecodedMessage, DecodedValue, FieldValueModel,
    MessageModel, PackedArray, PackedModel, UnknownModel, UnknownValue, ValueModel,
};
use crate::document::{
    distinct_names, items_view, lemma_document_parts, members_view, Document, Json, Member,
    MemberModel,
};
use crate::registry::{Schema, SchemaRegistry};
use crate::text::{decimal, decimal_text, text_from_utf8_lossy, utf8_lossy};

verus! {

broadcast use {
    vstd::seq::axiom_seq_index_decreases,
    vstd::std_specs::vec::axiom_vec_decreases_to_view,
    vstd::std_specs::vec::axiom_vec_index_decreases,
};

/// The text that the decoder's `{:?}` format makes of an unknown field.
pub uninterp spec fn unknown_debug(u: UnknownModel) -> Seq<char>;

/// `format!` with `{:?}` on the decoder's unknown value that holds what
/// `u` holds.
#[verifier::external_body]
fn unknown_debug_text(u: &UnknownValue) -> (s: String)
    ensures
        s@ == unknown_debug(u@),
{
    let raw = match u {
        UnknownValue::Varint(x) => pf::UnknownValue::Varint(*x),
        UnknownValue::Fixed64(x) => pf::UnknownValue::Fixed64(*x),
        UnknownValue::VariableLength(b) => pf::UnknownValue::VariableLength(b.clone().into()),
        UnknownValue::Fixed32(x) => pf::UnknownValue::Fixed32(*x),
        UnknownValue::Invalid(t, b) => pf::UnknownValue::Invalid(*t, b.clone().into()),
    };
    format!("{:?}", raw)
}

/// Bytes as numbers.
pub open spec fn items_u8(s: Seq<u8>) -> Seq<Json> {
    Seq::new(s.len(), |i: int| Json::Int(s[i] as int))
}

/// Signed 32-bit items as numbers.
pub open spec fn items_i32(s: Seq<i32>) -> Seq<Json> {
    Seq::new(s.len(), |i: int| Json::Int(s[i] as int))
}

/// Signed 64-bit items as numbers.
pub open spec fn items_i64(s: Seq<i64>) -> Seq<Json> {
    Seq::new(s.len(), |i: int| Json::Int(s[i] as int))
}

/// 32-bit items: whole numbers, or the bits of single-precision numbers.
pub open spec fn items_u32(s: Seq<u32>, bits: bool) -> Seq<Json> {
    Seq::new(
        s.len(),
        |i: int|
            if bits {
                Json::Float(s[i])
            } else {
                Json::Int(s[i] as int)
            },
    )
}

/// 64-bit items: whole numbers, or the bits of double-precision numbers.
pub open spec fn items_u64(s: Seq<u64>, bits: bool) -> Seq<Json> {
    Seq::new(
        s.len(),
        |i: int|
            if bits {
                Json::Double(s[i])
            } else {
                Json::Int(s[i] as int)
            },
    )
}

/// Truth values as they are.
pub open spec fn items_bool(s: Seq<bool>) -> Seq<Json> {
    Seq::new(s.len(), |i: int| Json::Bool(s[i]))
}

/// The items of a packed block as documents, one for one and in order.
pub open spec fn packed_items(p: PackedModel) -> Seq<Json> {
    match p {
        PackedModel::Double(s) => items_u64(s, true),
        PackedModel::Float(s) => items_u32(s, true),
        PackedModel::Int32(s) => items_i32(s),
        PackedModel::Int64(s) => items_i64(s),
        PackedModel::UInt32(s) => items_u32(s, false),
        PackedModel::UInt64(s) => items_u64(s, false),
        PackedModel::SInt32(s) => items_i32(s),
        PackedModel::SInt64(s) => items_i64(s),
        PackedModel::Fixed32(s) => items_u32(s, false),
        PackedModel::Fixed64(s) => items_u64(s, false),
        PackedModel::SFixed32(s) => items_i32(s),
        PackedModel::SFixed64(s) => items_i64(s),
        PackedModel::Bool(s) => items_bool(s),
    }
}

/// The number of items of a packed block.
pub open spec fn packed_len(p: PackedModel) -> nat {
    match p {
        PackedModel::Double(s) => s.len(),
        PackedModel::Float(s) => s.len(),
        PackedModel::Int32(s) => s.len(),
        PackedModel::Int64(s) => s.len(),
        PackedModel::UInt32(s) => s.len(),
        PackedModel::UInt64(s) => s.len(),
        PackedModel::SInt32(s) => s.len(),
        PackedModel::SInt64(s) => s.len(),
        PackedModel::Fixed32(s) => s.len(),
        PackedModel::Fixed64(s) => s.len(),
        PackedModel::SFixed32(s) => s.len(),
        PackedModel::SFixed64(s) => s.len(),
        PackedModel::Bool(s) => s.len(),
    }
}

/// The values read under one name, in the order read.
pub struct GroupModel {
    pub name: Seq<char>,
    pub values: Seq<Json>,
}

/// The index of the first group with the name, from index `i` on; the
/// number of groups where there is none.
pub open spec fn group_from(groups: Seq<GroupModel>, name: Seq<char>, i: int) -> int
    decreases groups.len() - i,
{
    if i >= groups.len() {
        groups.len() as int
    } else if groups[i].name == name {
        i
    } else {
        group_from(groups, name, i + 1)
    }
}

/// The groups after one more value was read under `name`: the group of
/// that name keeps its place and takes the value as its last; a new name
/// makes a new group, which comes last.
pub open spec fn gather(groups: Seq<GroupModel>, name: Seq<char>, value: Json) -> Seq<
    GroupModel,
> {
    let at = group_from(groups, name, 0);
    if 0 <= at < groups.len() {
        groups.update(at, GroupModel { name, values: groups[at].values.push(value) })
    } else {
        groups.push(GroupModel { name, values: seq![value] })
    }
}

/// What is shown for the values of one name: the value itself where there
/// is one, and the list of them, in the order read, where there are more.
pub open spec fn shown_value(values: Seq<Json>) -> Json {
    if values.len() == 1 {
        values[0]
    } else {
        Json::Array(values)
    }
}

/// The members that groups are shown as, one for each group and in the
/// groups' order.
pub open spec fn group_members(groups: Seq<GroupModel>) -> Seq<MemberModel> {
    Seq::new(
        groups.len(),
        |i: int| MemberModel { name: groups[i].name, value: shown_value(groups[i].values) },
    )
}

/// The name that a field is shown under: the name that its message
/// declares for its number, and the number in decimal where the message
/// declares none.
pub open spec fn field_label(schema: Schema, owner: MessageRef, number: u64) -> Seq<char> {
    match schema.field(owner, number) {
        Some(descriptor) => descriptor.name,
        None => decimal(number as nat),
    }
}

/// The name under which the bytes are shown that a message was left with
/// where its input ends within a tag: no field number could be read for
/// them, and 0 is the number of no field.
pub open spec fn leftover_label() -> Seq<char> {
    decimal(0)
}

/// The text that marks bytes as cut short.
pub open spec fn incomplete_text(bytes: Seq<u8>) -> Seq<char> {
    "INCOMPLETE: "@ + utf8_lossy(bytes)
}

/// The groups with what a message was left with, if anything, as one more
/// value marked incomplete.
pub open spec fn with_leftover(groups: Seq<GroupModel>, garbage: Option<Seq<u8>>) -> Seq<
    GroupModel,
> {
    match garbage {
        Some(bytes) => gather(groups, leftover_label(), Json::String(incomplete_text(bytes))),
        None => groups,
    }
}

/// The document that a value is shown as. An enum number is shown as its
/// symbol, and as the number itself where its enum has no symbol for it.
pub open spec fn convert_value(schema: Schema, v: ValueModel) -> Json
    decreases v, 0nat,
{
    match v {
        ValueModel::Double(x) => Json::Double(x),
        ValueModel::Float(x) => Json::Float(x),
        ValueModel::Int32(x) => Json::Int(x as int),
        ValueModel::Int64(x) => Json::Int(x as int),
        ValueModel::UInt32(x) => Json::Int(x as int),
        ValueModel::UInt64(x) => Json::Int(x as int),
        ValueModel::SInt32(x) => Json::Int(x as int),
        ValueModel::SInt64(x) => Json::Int(x as int),
        ValueModel::Fixed32(x) => Json::Int(x as int),
        ValueModel::Fixed64(x) => Json::Int(x as int),
        ValueModel::SFixed32(x) => Json::Int(x as int),
        ValueModel::SFixed64(x) => Json::Int(x as int),
        ValueModel::Bool(x) => Json::Bool(x),
        ValueModel::String(s) => Json::String(s),
        ValueModel::Bytes(b) => Json::Array(items_u8(b)),
        ValueModel::Packed(p) => Json::Array(packed_items(p)),
        ValueModel::Message(m) => Json::Object(
            group_members(
                with_leftover(
                    gather_fields(schema, m.msg_ref, m.fields, m.fields.len()),
                    m.garbage,
                ),
            ),
        ),
        ValueModel::Enum(e, value) => match schema.symbol(e, value) {
            Some(symbol) => Json::String(symbol),
            None => Json::Int(value as int),
        },
        ValueModel::Incomplete(_, b) => Json::String(incomplete_text(b)),
        ValueModel::Unknown(u) => Json::String("UNKNOWN: "@ + unknown_debug(u)),
    }
}

/// The groups that the first `n` fields of a message of type `owner` make.
/// Field by field, in the order read: the value is converted and gathered
/// under the field's label.
pub open spec fn gather_fields(
    schema: Schema,
    owner: MessageRef,
    fields: Seq<FieldValueModel>,
    n: nat,
) -> Seq<GroupModel>
    decreases fields, n,
{
    if n == 0 || n > fields.len() {
        Seq::empty()
    } else {
        gather(
            gather_fields(schema, owner, fields, (n - 1) as nat),
            field_label(schema, owner, fields[n - 1].number),
            convert_value(schema, fields[n - 1].value),
        )
    }
}

/// The members that a message is shown as: every value of every field,
/// under the field's label at the place of the label's first occurrence,
/// and last what the message was left with.
pub open spec fn convert_message_spec(schema: Schema, m: MessageModel) -> Seq<MemberModel> {
    group_members(
        with_leftover(gather_fields(schema, m.msg_ref, m.fields, m.fields.len()), m.garbage),
    )
}

/// No two groups have one name, and no group is without a value.
pub open spec fn groups_wf(groups: Seq<GroupModel>) -> bool {
    &&& forall|i: int, j: int|
        0 <= i < j < groups.len() ==> (#[trigger] groups[i]).name != (#[trigger] groups[j]).name
    &&& forall|i: int| 0 <= i < groups.len() ==> (#[trigger] groups[i]).values.len() > 0
}

/// Where `group_from` points: at a group of the name that no earlier group
/// from `i` on shares, or past the end if none from `i` on has it.
pub proof fn lemma_group_from(groups: Seq<GroupModel>, name: Seq<char>, i: int)
    requires
        0 <= i,
    ensures
        i <= group_from(groups, name, i) || group_from(groups, name, i) == groups.len(),
        group_from(groups, name, i) <= groups.len(),
        group_from(groups, name, i) < groups.len() ==> groups[group_from(groups, name, i)].name
            == name,
        forall|k: int| i <= k < group_from(groups, name, i) ==> groups[k].name != name,
    decreases groups.len() - i,
{
    if i < groups.len() && groups[i].name != name {
        lemma_group_from(groups, name, i + 1);
    }
}

/// Gathering a value keeps the groups well formed, keeps every group at
/// its place with the values it had as the first of its values, and leaves
/// the value as the last of the group of its name.
pub proof fn lemma_gather(groups: Seq<GroupModel>, name: Seq<char>, value: Json)
    requires
        groups_wf(groups),
    ensures
        groups_wf(gather(groups, name, value)),
        groups.len() <= gather(groups, name, value).len() <= groups.len() + 1,
        forall|i: int|
            0 <= i < groups.len() ==> {
                let after = #[trigger] gather(groups, name, value)[i];
                &&& after.name == groups[i].name
                &&& after.values.len() >= groups[i].values.len()
                &&& after.values.subrange(0, groups[i].values.len() as int)
                    == groups[i].values
            },
        ({
            let after = gather(groups, name, value);
            let at = group_from(after, name, 0);
            &&& 0 <= at < after.len()
            &&& after[at].values.last() == value
        }),
{
    lemma_group_from(groups, name, 0);
    let at = group_from(groups, name, 0);
    let after = gather(groups, name, value);
    assert forall|i: int, j: int| 0 <= i < j < after.len() implies (#[trigger] after[i]).name != (
    #[trigger] after[j]).name by {
        if at < groups.len() {
            assert(after[i].name == groups[i].name);
            assert(after[j].name == groups[j].name);
        } else {
            if j < groups.len() {
                assert(after[i] == groups[i]);
                assert(after[j] == groups[j]);
            } else {
                assert(after[i] == groups[i]);
            }
        }
    }
    assert forall|i: int| 0 <= i < groups.len() implies ({
        let g = #[trigger] after[i];
        &&& g.name == groups[i].name
        &&& g.values.len() >= groups[i].values.len()
        &&& g.values.subrange(0, groups[i].values.len() as int) == groups[i].values
    }) by {
        assert(after[i].values.subrange(0, groups[i].values.len() as int) =~= groups[i].values);
    }
    lemma_group_from(after, name, 0);
    let found = group_from(after, name, 0);
    if at < groups.len() {
        assert(after[at].name == name);
        if found < at {
            assert(after[found].name == groups[found].name);
        }
        assert(found == at);
    } else {
        assert(after[groups.len() as int].name == name);
        if found < groups.len() {
            assert(after[found] == groups[found]);
        }
        assert(found == groups.len());
    }
}

/// The members that a message is shown as have distinct names, and none
/// stands for no value.
pub proof fn lemma_members_distinct(schema: Schema, m: MessageModel)
    ensures
        distinct_names(convert_message_spec(schema, m)),
        convert_message_spec(schema, m).len() <= m.fields.len() + 1,
{
    lemma_fields_wf(schema, m.msg_ref, m.fields, m.fields.len());
    let groups = gather_fields(schema, m.msg_ref, m.fields, m.fields.len());
    match m.garbage {
        Some(bytes) => {
            lemma_gather(groups, leftover_label(), Json::String(incomplete_text(bytes)));
        },
        None => {},
    }
    let last = with_leftover(groups, m.garbage);
    assert forall|i: int, j: int| 0 <= i < j < group_members(last).len() implies (
    #[trigger] group_members(last)[i]).name != (#[trigger] group_members(last)[j]).name by {
        assert(last[i].name != last[j].name);
    }
}

/// The groups that fields make are well formed, and no more than the
/// fields.
pub proof fn lemma_fields_wf(
    schema: Schema,
    owner: MessageRef,
    fields: Seq<FieldValueModel>,
    n: nat,
)
    ensures
        groups_wf(gather_fields(schema, owner, fields, n)),
        gather_fields(schema, owner, fields, n).len() <= n,
        n > fields.len() ==> gather_fields(schema, owner, fields, n).len() == 0,
    decreases n,
{
    if n == 0 || n > fields.len() {
    } else {
        lemma_fields_wf(schema, owner, fields, (n - 1) as nat);
        lemma_gather(
            gather_fields(schema, owner, fields, (n - 1) as nat),
            field_label(schema, owner, fields[n - 1].number),
            convert_value(schema, fields[n - 1].value),
        );
    }
}

/// Where no two of the first `n` fields have one label, each makes a group
/// of its own: the groups are as many as the fields and stand in their
/// order, each with its field's label and its field's value alone.
pub proof fn lemma_one_group_each(
    schema: Schema,
    owner: MessageRef,
    fields: Seq<FieldValueModel>,
    n: nat,
)
    requires
        n <= fields.len(),
        forall|i: int, j: int|
            0 <= i < j < n ==> field_label(schema, owner, (#[trigger] fields[i]).number)
                != field_label(schema, owner, (#[trigger] fields[j]).number),
    ensures
        gather_fields(schema, owner, fields, n).len() == n,
        forall|i: int|
            0 <= i < n ==> #[trigger] gather_fields(schema, owner, fields, n)[i] == (GroupModel {
                name: field_label(schema, owner, fields[i].number),
                values: seq![convert_value(schema, fields[i].value)],
            }),
    decreases n,
{
    if n > 0 {
        lemma_one_group_each(schema, owner, fields, (n - 1) as nat);
        let before = gather_fields(schema, owner, fields, (n - 1) as nat);
        let name = field_label(schema, owner, fields[n - 1].number);
        lemma_group_from(before, name, 0);
        let at = group_from(before, name, 0);
        if at < before.len() {
            assert(before[at].name == field_label(schema, owner, fields[at].number));
            assert(false);
        }
    }
}

/// A message whose fields have distinct labels, and which was left with
/// nothing, is shown with one member for each field, in the fields' order:
/// the field's label with the field's value.
pub proof fn lemma_one_member_each(schema: Schema, m: MessageModel)
    requires
        m.garbage is None,
        forall|i: int, j: int|
            0 <= i < j < m.fields.len() ==> field_label(
                schema,
                m.msg_ref,
                (#[trigger] m.fields[i]).number,
            ) != field_label(schema, m.msg_ref, (#[trigger] m.fields[j]).number),
    ensures
        convert_message_spec(schema, m).len() == m.fields.len(),
        forall|i: int|
            0 <= i < m.fields.len() ==> #[trigger] convert_message_spec(schema, m)[i]
                == (MemberModel {
                name: field_label(schema, m.msg_ref, m.fields[i].number),
                value: convert_value(schema, m.fields[i].value),
            }),
{
    lemma_one_group_each(schema, m.msg_ref, m.fields, m.fields.len());
    let groups = gather_fields(schema, m.msg_ref, m.fields, m.fields.len());
    assert forall|i: int| 0 <= i < m.fields.len() implies #[trigger] convert_message_spec(
        schema,
        m,
    )[i] == (MemberModel {
        name: field_label(schema, m.msg_ref, m.fields[i].number),
        value: convert_value(schema, m.fields[i].value),
    }) by {
        assert(groups[i].values.len() == 1);
        assert(groups[i].values[0] == convert_value(schema, m.fields[i].value));
    }
}

/// The values, in the order read, of those of the first `n` fields that
/// have the label.
pub open spec fn labelled_values(
    schema: Schema,
    owner: MessageRef,
    fields: Seq<FieldValueModel>,
    n: nat,
    label: Seq<char>,
) -> Seq<Json>
    decreases n,
{
    if n == 0 || n > fields.len() {
        Seq::empty()
    } else {
        let before = labelled_values(schema, owner, fields, (n - 1) as nat, label);
        if field_label(schema, owner, fields[n - 1].number) == label {
            before.push(convert_value(schema, fields[n - 1].value))
        } else {
            before
        }
    }
}

/// Nothing is lost and nothing is made up: the values of each group are
/// the values of the fields of its label, all of them and in the order
/// read, and a label without a group is the label of no field.
pub proof fn lemma_groups_hold_every_value(
    schema: Schema,
    owner: MessageRef,
    fields: Seq<FieldValueModel>,
    n: nat,
)
    requires
        n <= fields.len(),
    ensures
        forall|i: int|
            0 <= i < gather_fields(schema, owner, fields, n).len() ==> (
            #[trigger] gather_fields(schema, owner, fields, n)[i]).values == labelled_values(
                schema,
                owner,
                fields,
                n,
                gather_fields(schema, owner, fields, n)[i].name,
            ),
        forall|label: Seq<char>|
            group_from(gather_fields(schema, owner, fields, n), label, 0) == gather_fields(
                schema,
                owner,
                fields,
                n,
            ).len() ==> #[trigger] labelled_values(schema, owner, fields, n, label)
                == Seq::<Json>::empty(),
    decreases n,
{
    if n > 0 {
        let before = gather_fields(schema, owner, fields, (n - 1) as nat);
        let name = field_label(schema, owner, fields[n - 1].number);
        let value = convert_value(schema, fields[n - 1].value);
        let after = gather_fields(schema, owner, fields, n);
        lemma_groups_hold_every_value(schema, owner, fields, (n - 1) as nat);
        lemma_fields_wf(schema, owner, fields, (n - 1) as nat);
        lemma_gather(before, name, value);
        lemma_group_from(before, name, 0);
        let at = group_from(before, name, 0);
        assert forall|i: int| 0 <= i < after.len() implies (#[trigger] after[i]).values
            == labelled_values(schema, owner, fields, n, after[i].name) by {
            if at < before.len() {
                if i == at {
                    assert(after[i].values == before[at].values.push(value));
                } else {
                    assert(after[i] == before[i]);
                    assert(before[i].name != before[at].name);
                }
            } else {
                if i < before.len() {
                    assert(after[i] == before[i]);
                    assert(before[i].name != name);
                } else {
                    assert(labelled_values(schema, owner, fields, (n - 1) as nat, name)
                        == Seq::<Json>::empty());
                    assert(after[i].values =~= Seq::<Json>::empty().push(value));
                }
            }
        }
        assert forall|label: Seq<char>| group_from(after, label, 0) == after.len() implies (
        #[trigger] labelled_values(schema, owner, fields, n, label)) == Seq::<Json>::empty() by {
            lemma_group_from(after, label, 0);
            lemma_group_from(before, label, 0);
            if label == name {
                let found = group_from(after, name, 0);
                assert(0 <= found < after.len());
                assert(false);
            }
            let was = group_from(before, label, 0);
            if was < before.len() {
                assert(after[was].name == before[was].name);
                assert(false);
            }
            assert(was == before.len());
            assert(labelled_values(schema, owner, fields, (n - 1) as nat, label)
                == Seq::<Json>::empty());
        }
    }
}

/// A packed block is shown as a list that has as many items as the block,
/// the item at each place being the number at that place of the block.
pub proof fn lemma_packed_count_and_order(schema: Schema, p: PackedModel)
    ensures
        convert_value(schema, ValueModel::Packed(p)) == Json::Array(packed_items(p)),
        packed_items(p).len() == packed_len(p),
        forall|i: int|
            0 <= i < packed_len(p) ==> #[trigger] packed_items(p)[i] == (match p {
                PackedModel::Double(s) => Json::Double(s[i]),
                PackedModel::Float(s) => Json::Float(s[i]),
                PackedModel::Int32(s) => Json::Int(s[i] as int),
                PackedModel::Int64(s) => Json::Int(s[i] as int),
                PackedModel::UInt32(s) => Json::Int(s[i] as int),
                PackedModel::UInt64(s) => Json::Int(s[i] as int),
                PackedModel::SInt32(s) => Json::Int(s[i] as int),
                PackedModel::SInt64(s) => Json::Int(s[i] as int),
                PackedModel::Fixed32(s) => Json::Int(s[i] as int),
                PackedModel::Fixed64(s) => Json::Int(s[i] as int),
                PackedModel::SFixed32(s) => Json::Int(s[i] as int),
                PackedModel::SFixed64(s) => Json::Int(s[i] as int),
                PackedModel::Bool(s) => Json::Bool(s[i]),
            }),
{
}

fn array_u8(items: &Vec<u8>) -> (d: Document)
    ensures
        d@ == Json::Array(items_u8(items@)),
{
    let mut out: Vec<Document> = Vec::new();
    let mut i: usize = 0;
    while i < items.len()
        invariant
            i <= items.len(),
            out@.len() == i,
            forall|k: int| 0 <= k < i ==> (#[trigger] out@[k])@ == items_u8(items@)[k],
        decreases items.len() - i,
    {
        out.push(Document::UInt(items[i] as u64));
        i = i + 1;
    }
    let d = Document::Array(out);
    proof {
        lemma_document_parts(d);
        assert(items_view(out@) =~= items_u8(items@));
    }
    d
}

fn array_i32(items: &Vec<i32>) -> (d: Document)
    ensures
        d@ == Json::Array(items_i32(items@)),
{
    let mut out: Vec<Document> = Vec::new();
    let mut i: usize = 0;
    while i < items.len()
        invariant
            i <= items.len(),
            out@.len() == i,
            forall|k: int| 0 <= k < i ==> (#[trigger] out@[k])@ == items_i32(items@)[k],
        decreases items.len() - i,
    {
        out.push(Document::Int(items[i] as i64));
        i = i + 1;
    }
    let d = Document::Array(out);
    proof {
        lemma_document_parts(d);
        assert(items_view(out@) =~= items_i32(items@));
    }
    d
}

fn array_i64(items: &Vec<i64>) -> (d: Document)
    ensures
        d@ == Json::Array(items_i64(items@)),
{
    let mut out: Vec<Document> = Vec::new();
    let mut i: usize = 0;
    while i < items.len()
        invariant
            i <= items.len(),
            out@.len() == i,
            forall|k: int| 0 <= k < i ==> (#[trigger] out@[k])@ == items_i64(items@)[k],
        decreases items.len() - i,
    {
        out.push(Document::Int(items[i]));
        i = i + 1;
    }
    let d = Document::Array(out);
    proof {
        lemma_document_parts(d);
        assert(items_view(out@) =~= items_i64(items@));
    }
    d
}

fn array_u32(items: &Vec<u32>, bits: bool) -> (d: Document)
    ensures
        d@ == Json::Array(items_u32(items@, bits)),
{
    let mut out: Vec<Document> = Vec::new();
    let mut i: usize = 0;
    while i < items.len()
        invariant
            i <= items.len(),
            out@.len() == i,
            forall|k: int| 0 <= k < i ==> (#[trigger] out@[k])@ == items_u32(items@, bits)[k],
        decreases items.len() - i,
    {
        if bits {
            out.push(Document::Float(items[i]));
        } else {
            out.push(Document::UInt(items[i] as u64));
        }
        i = i + 1;
    }
    let d = Document::Array(out);
    proof {
        lemma_document_parts(d);
        assert(items_view(out@) =~= items_u32(items@, bits));
    }
    d
}

fn array_u64(items: &Vec<u64>, bits: bool) -> (d: Document)
    ensures
        d@ == Json::Array(items_u64(items@, bits)),
{
    let mut out: Vec<Document> = Vec::new();
    let mut i: usize = 0;
    while i < items.len()
        invariant
            i <= items.len(),
            out@.len() == i,
            forall|k: int| 0 <= k < i ==> (#[trigger] out@[k])@ == items_u64(items@, bits)[k],
        decreases items.len() - i,
    {
        if bits {
            out.push(Document::Double(items[i]));
        } else {
            out.push(Document::UInt(items[i]));
        }
        i = i + 1;
    }
    let d = Document::Array(out);
    proof {
        lemma_document_parts(d);
        assert(items_view(out@) =~= items_u64(items@, bits));
    }
    d
}

fn array_bool(items: &Vec<bool>) -> (d: Document)
    ensures
        d@ == Json::Array(items_bool(items@)),
{
    let mut out: Vec<Document> = Vec::new();
    let mut i: usize = 0;
    while i < items.len()
        invariant
            i <= items.len(),
            out@.len() == i,
            forall|k: int| 0 <= k < i ==> (#[trigger] out@[k])@ == items_bool(items@)[k],
        decreases items.len() - i,
    {
        out.push(Document::Bool(items[i]));
        i = i + 1;
    }
    let d = Document::Array(out);
    proof {
        lemma_document_parts(d);
        assert(items_view(out@) =~= items_bool(items@));
    }
    d
}

/// Shows a packed block as a list with one number for each item, in the
/// block's order.
pub fn convert_packed(p: &PackedArray) -> (d: Document)
    ensures
        d@ == Json::Array(packed_items(p@)),
{
    match p {
        PackedArray::Double(s) => array_u64(s, true),
        PackedArray::Float(s) => array_u32(s, true),
        PackedArray::Int32(s) => array_i32(s),
        PackedArray::Int64(s) => array_i64(s),
        PackedArray::UInt32(s) => array_u32(s, false),
        PackedArray::UInt64(s) => array_u64(s, false),
        PackedArray::SInt32(s) => array_i32(s),
        PackedArray::SInt64(s) => array_i64(s),
        PackedArray::Fixed32(s) => array_u32(s, false),
        PackedArray::Fixed64(s) => array_u64(s, false),
        PackedArray::SFixed32(s) => array_i32(s),
        PackedArray::SFixed64(s) => array_i64(s),
        PackedArray::Bool(s) => array_bool(s),
    }
}

/// The values read under one name.
struct Group {
    name: String,
    values: Vec<Document>,
}

impl View for Group {
    type V = GroupModel;

    closed spec fn view(&self) -> GroupModel {
        GroupModel { name: self.name@, values: items_view(self.values@) }
    }
}

spec fn groups_view(groups: Seq<Group>) -> Seq<GroupModel> {
    Seq::new(groups.len(), |i: int| groups[i]@)
}

fn gather_value(groups: &mut Vec<Group>, name: String, value: Document)
    ensures
        groups_view(final(groups)@) == gather(groups_view(old(groups)@), name@, value@),
{
    let ghost before = groups_view(groups@);
    let mut i: usize = 0;
    while i < groups.len()
        invariant
            i <= groups.len(),
            groups_view(groups@) == before,
            before == groups_view(old(groups)@),
            group_from(before, name@, 0) == group_from(before, name@, i as int),
        decreases groups.len() - i,
    {
        assert(before[i as int] == groups@[i as int]@);
        if groups[i].name == name {
            let ghost held = groups@;
            let mut group = groups.remove(i);
            let ghost old_values = items_view(group.values@);
            group.values.push(value);
            assert(items_view(group.values@) =~= old_values.push(value@));
            groups.insert(i, group);
            assert(groups_view(groups@) =~= gather(before, name@, value@)) by {
                assert forall|k: int| 0 <= k < groups@.len() implies groups_view(groups@)[k]
                    == gather(before, name@, value@)[k] by {
                    if k != i {
                        assert(groups@[k] == held[k]);
                        assert(before[k] == held[k]@);
                    }
                }
            }
            return ;
        }
        i = i + 1;
    }
    let mut values: Vec<Document> = Vec::new();
    values.push(value);
    assert(items_view(values@) =~= seq![value@]);
    groups.push(Group { name, values });
    assert(groups_view(groups@) =~= gather(before, name@, value@));
}

fn into_members(groups: Vec<Group>) -> (members: Vec<Member>)
    requires
        forall|i: int| 0 <= i < groups@.len() ==> (#[trigger] groups@[i]).values@.len() > 0,
    ensures
        members_view(members@) == group_members(groups_view(groups@)),
{
    let ghost all = groups_view(groups@);
    let mut groups = groups;
    let mut members: Vec<Member> = Vec::new();
    assert(members_view(members@) + group_members(groups_view(groups@)) =~= group_members(all));
    while groups.len() > 0
        invariant
            forall|i: int| 0 <= i < groups@.len() ==> (#[trigger] groups@[i]).values@.len() > 0,
            members_view(members@) + group_members(groups_view(groups@)) == group_members(all),
        decreases groups.len(),
    {
        let ghost done = members_view(members@);
        let ghost rest = groups_view(groups@);
        let ghost held = groups@;
        let group = groups.remove(0);
        assert(group == held[0]);
        let Group { name, values } = group;
        let mut values = values;
        let ghost listed = items_view(values@);
        let value = if values.len() == 1 {
            match values.pop() {
                Some(only) => {
                    assert(only@ == listed[0]);
                    only
                },
                None => {
                    assert(false);
                    Document::Null
                },
            }
        } else {
            let d = Document::Array(values);
            proof {
                lemma_document_parts(d);
            }
            d
        };
        assert(value@ == shown_value(listed));
        assert(rest[0] == (GroupModel { name: name@, values: listed }));
        members.push(Member { name, value });
        assert(members_view(members@) =~= done.push(group_members(rest)[0]));
        assert(groups_view(groups@) =~= rest.subrange(1, rest.len() as int));
        assert(group_members(groups_view(groups@)) =~= group_members(rest).subrange(
            1,
            rest.len() as int,
        ));
        assert(members_view(members@) + group_members(groups_view(groups@)) =~= done
            + group_members(rest));
    }
    assert(group_members(groups_view(groups@)) =~= Seq::<MemberModel>::empty());
    assert(members_view(members@) + Seq::<MemberModel>::empty() =~= members_view(members@));
    members
}

/// Marks bytes as cut short.
fn incomplete(bytes: &Vec<u8>) -> (d: Document)
    ensures
        d@ == Json::String(incomplete_text(bytes@)),
{
    let rest = text_from_utf8_lossy(bytes);
    Document::String(String::from_str("INCOMPLETE: ").concat(rest.as_str()))
}

/// Shows a decoded value as a document.
pub fn convert(registry: &SchemaRegistry, value: &DecodedValue) -> (d: Document)
    requires
        registry.wf(),
        value_known(registry@, value@),
    ensures
        d@ == convert_value(registry@, value@),
    decreases value,
{
    match value {
        DecodedValue::Double(x) => Document::Double(*x),
        DecodedValue::Float(x) => Document::Float(*x),
        DecodedValue::Int32(x) => Document::Int(*x as i64),
        DecodedValue::Int64(x) => Document::Int(*x),
        DecodedValue::UInt32(x) => Document::UInt(*x as u64),
        DecodedValue::UInt64(x) => Document::UInt(*x),
        DecodedValue::SInt32(x) => Document::Int(*x as i64),
        DecodedValue::SInt64(x) => Document::Int(*x),
        DecodedValue::Fixed32(x) => Document::UInt(*x as u64),
        DecodedValue::Fixed64(x) => Document::UInt(*x),
        DecodedValue::SFixed32(x) => Document::Int(*x as i64),
        DecodedValue::SFixed64(x) => Document::Int(*x),
        DecodedValue::Bool(x) => Document::Bool(*x),
        DecodedValue::String(s) => Document::String(s.clone()),
        DecodedValue::Bytes(b) => array_u8(b),
        DecodedValue::Packed(p) => convert_packed(p),
        DecodedValue::Message(m) => {
            let d = Document::Object(convert_message(registry, &**m));
            proof {
                lemma_document_parts(d);
            }
            d
        },
        DecodedValue::Enum(e) => match registry.enum_symbol(e.enum_ref, e.value) {
            Some(symbol) => Document::String(symbol),
            None => Document::Int(e.value),
        },
        DecodedValue::Incomplete(_, b) => incomplete(b),
        DecodedValue::Unknown(u) => {
            let shown = unknown_debug_text(u);
            Document::String(String::from_str("UNKNOWN: ").concat(shown.as_str()))
        },
    }
}

/// Shows a decoded message as the members of an object: every value of
/// every field under the field's label, a label that occurs more than once
/// as the list of its values at the place of its first occurrence.
pub fn convert_message(registry: &SchemaRegistry, m: &DecodedMessage) -> (members: Vec<Member>)
    requires
        registry.wf(),
        message_known(registry@, m@),
    ensures
        members_view(members@) == convert_message_spec(registry@, m@),
    decreases m,
{
    let mut groups: Vec<Group> = Vec::new();
    let mut i: usize = 0;
    assert(groups_view(groups@) =~= Seq::<GroupModel>::empty());
    while i < m.fields.len()
        invariant
            registry.wf(),
            message_known(registry@, m@),
            i <= m.fields.len(),
            m@.fields.len() == m.fields.len(),
            groups_view(groups@) == gather_fields(registry@, m@.msg_ref, m@.fields, i as nat),
        decreases m.fields.len() - i,
    {
        let field = &m.fields[i];
        assert(m@.fields[i as int] == field@);
        assert(value_known(registry@, m@.fields[i as int].value));
        let name = match registry.field_name(m.msg_ref, field.number) {
            Some(name) => name,
            None => decimal_text(field.number),
        };
        let value = convert(registry, &field.value);
        gather_value(&mut groups, name, value);
        i = i + 1;
    }
    match &m.garbage {
        Some(bytes) => {
            gather_value(&mut groups, decimal_text(0), incomplete(bytes));
        },
        None => {},
    }
    proof {
        lemma_fields_wf(registry@, m@.msg_ref, m@.fields, m@.fields.len());
        match m@.garbage {
            Some(bytes) => {
                lemma_gather(
                    gather_fields(registry@, m@.msg_ref, m@.fields, m@.fields.len()),
                    leftover_label(),
                    Json::String(incomplete_text(bytes)),
                );
            },
            None => {},
        }
        assert forall|k: int| 0 <= k < groups@.len() implies (#[trigger] groups@[k]).values@.len()
            > 0 by {
            assert(groups_view(groups@)[k].values.len() > 0);
        }
    }
    into_members(groups)
}

} // verus!
