//! Documents: the structured values that records are shown as.

use vstd::prelude::*;

verus! {

broadcast use {
    vstd::seq::axiom_seq_index_decreases,
    vstd::std_specs::vec::axiom_vec_decreases_to_view,
};

/// A named value of an object.
#[derive(Debug, PartialEq)]
pub struct Member {
    pub name: String,
    pub value: Document,
}

/// A structured value: nothing, a truth value, a number, text, a list, or
/// an object whose members keep the order they were put in.
#[derive(Debug, PartialEq)]
pub enum Document {
    Null,
    Bool(bool),
    /// A whole number that may be negative.
    Int(i64),
    /// A whole number that is not negative.
    UInt(u64),
    /// A double-precision number, by its bits.
    Double(u64),
    /// A single-precision number, by its bits.
    Float(u32),
    String(String),
    Array(Vec<Document>),
    Object(Vec<Member>),
}

/// A named value of an object, as a mathematical value.
pub struct MemberModel {
    pub name: Seq<char>,
    pub value: Json,
}

/// A document as a mathematical value. The two kinds of whole number are
/// one here: a number is what it counts.
pub enum Json {
    Null,
    Bool(bool),
    Int(int),
    Double(u64),
    Float(u32),
    String(Seq<char>),
    Array(Seq<Json>),
    Object(Seq<MemberModel>),
}

/// The mathematical value of a document.
pub open spec fn document_view(d: Document) -> Json
    decreases d,
{
    match d {
        Document::Null => Json::Null,
        Document::Bool(b) => Json::Bool(b),
        Document::Int(x) => Json::Int(x as int),
        Document::UInt(x) => Json::Int(x as int),
        Document::Double(b) => Json::Double(b),
        Document::Float(b) => Json::Float(b),
        Document::String(s) => Json::String(s@),
        Document::Array(items) => Json::Array(
            Seq::new(
                items@.len(),
                |i: int|
                    if 0 <= i < items@.len() {
                        document_view(items@[i])
                    } else {
                        arbitrary()
                    },
            ),
        ),
        Document::Object(members) => Json::Object(
            Seq::new(
                members@.len(),
                |i: int|
                    if 0 <= i < members@.len() {
                        MemberModel {
                            name: members@[i].name@,
                            value: document_view(members@[i].value),
                        }
                    } else {
                        arbitrary()
                    },
            ),
        ),
    }
}

impl View for Document {
    type V = Json;

    open spec fn view(&self) -> Json {
        document_view(*self)
    }
}

impl View for Member {
    type V = MemberModel;

    open spec fn view(&self) -> MemberModel {
        MemberModel { name: self.name@, value: document_view(self.value) }
    }
}

/// The members of an object, as mathematical values.
pub open spec fn members_view(members: Seq<Member>) -> Seq<MemberModel> {
    Seq::new(members.len(), |i: int| members[i]@)
}

/// The items of a list, as mathematical values.
pub open spec fn items_view(items: Seq<Document>) -> Seq<Json> {
    Seq::new(items.len(), |i: int| items[i]@)
}

/// An object is its members, a list its items.
pub proof fn lemma_document_parts(d: Document)
    ensures
        d matches Document::Object(members) ==> d@ == Json::Object(members_view(members@)),
        d matches Document::Array(items) ==> d@ == Json::Array(items_view(items@)),
{
    match d {
        Document::Object(members) => {
            assert(d@->Object_0 =~= members_view(members@));
        },
        Document::Array(items) => {
            assert(d@->Array_0 =~= items_view(items@));
        },
        _ => {},
    }
}

/// The index of the first member with the name, from index `i` on; the
/// number of members where there is none.
pub open spec fn position_from(members: Seq<MemberModel>, name: Seq<char>, i: int) -> int
    decreases members.len() - i,
{
    if i >= members.len() {
        members.len() as int
    } else if members[i].name == name {
        i
    } else {
        position_from(members, name, i + 1)
    }
}

/// The members after `name` is given `value`: a member of that name keeps
/// its place and takes the value; a new name comes last.
pub open spec fn put(members: Seq<MemberModel>, name: Seq<char>, value: Json) -> Seq<
    MemberModel,
> {
    let at = position_from(members, name, 0);
    if 0 <= at < members.len() {
        members.update(at, MemberModel { name, value })
    } else {
        members.push(MemberModel { name, value })
    }
}

/// No two members have one name.
pub open spec fn distinct_names(members: Seq<MemberModel>) -> bool {
    forall|i: int, j: int|
        0 <= i < j < members.len() ==> (#[trigger] members[i]).name != (#[trigger] members[j]).name
}

/// Where `position_from` points: at a member of the name that no earlier
/// member from `i` on shares, or past the end if none from `i` on has it.
pub proof fn lemma_position(members: Seq<MemberModel>, name: Seq<char>, i: int)
    requires
        0 <= i,
    ensures
        i <= position_from(members, name, i) || position_from(members, name, i)
            == members.len(),
        position_from(members, name, i) <= members.len(),
        position_from(members, name, i) < members.len() ==> members[position_from(
            members,
            name,
            i,
        )].name == name,
        forall|k: int| i <= k < position_from(members, name, i) ==> members[k].name != name,
    decreases members.len() - i,
{
    if i < members.len() && members[i].name != name {
        lemma_position(members, name, i + 1);
    }
}

/// Putting a member keeps names distinct, grows the object by at most one
/// member, and leaves every name that was there in its place.
pub proof fn lemma_put_distinct(members: Seq<MemberModel>, name: Seq<char>, value: Json)
    requires
        distinct_names(members),
    ensures
        distinct_names(put(members, name, value)),
        members.len() <= put(members, name, value).len() <= members.len() + 1,
        forall|i: int|
            0 <= i < members.len() ==> (#[trigger] put(members, name, value)[i]).name
                == members[i].name,
{
    lemma_position(members, name, 0);
    let at = position_from(members, name, 0);
    let after = put(members, name, value);
    assert forall|i: int, j: int| 0 <= i < j < after.len() implies (#[trigger] after[i]).name != (
    #[trigger] after[j]).name by {
        if at < members.len() {
            assert(after[i].name == members[i].name);
            assert(after[j].name == members[j].name);
        } else {
            if j < members.len() {
                assert(after[i] == members[i]);
                assert(after[j] == members[j]);
            } else {
                assert(after[i] == members[i]);
            }
        }
    }
}

} // verus!
