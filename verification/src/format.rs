//! Records: a key with its value, as text or as the fields of a message.

use vstd::prelude::*;
use vstd::string::StringExecFns;
use vstd::utf8::*;
use protofish::context::MessageRef;
use crate::convert::{convert_message, convert_message_spec};
use crate::decode::{decode_message, decode_spec};
use crate::document::{
    lemma_document_parts, members_view, Document, Json, Member, MemberModel,
};
use crate::error::Error;
use crate::registry::SchemaRegistry;
use crate::json::{pretty, pretty_text, to_json, written};
use crate::text::decode_text;

verus! {

/// A key and the fields of the message stored under it.
#[derive(Debug, PartialEq)]
pub struct Record {
    pub key: String,
    pub fields: Vec<Member>,
}

/// What a stored pair is shown as.
#[derive(Debug, PartialEq)]
pub enum Formatted {
    /// The value as text, where no message type was asked for.
    Text(String),
    /// The key with the decoded fields of the value.
    Record(Record),
}

/// A record as a mathematical value.
pub struct RecordModel {
    pub key: Seq<char>,
    pub fields: Seq<MemberModel>,
}

/// What a stored pair is shown as, as a mathematical value.
pub enum FormattedModel {
    Text(Seq<char>),
    Record(RecordModel),
}

impl View for Record {
    type V = RecordModel;

    open spec fn view(&self) -> RecordModel {
        RecordModel { key: self.key@, fields: members_view(self.fields@) }
    }
}

impl View for Formatted {
    type V = FormattedModel;

    open spec fn view(&self) -> FormattedModel {
        match self {
            Formatted::Text(s) => FormattedModel::Text(s@),
            Formatted::Record(r) => FormattedModel::Record(r@),
        }
    }
}

/// What a request to format asks of its arguments: a message type needs a
/// registry, and has to be one of that registry's messages.
pub open spec fn format_ready(registry: Option<SchemaRegistry>, msg: Option<MessageRef>) -> bool {
    msg matches Some(m) ==> (registry matches Some(r) && r.wf() && r@.messages.contains(m))
}

/// What a stored pair is shown as, and nothing where it cannot be shown:
/// where the key is not UTF-8, or no message type is given and the value is
/// not. The key is always read as UTF-8 text. Without a message type the
/// value is too. With one, the value is decoded as that message, whatever
/// bytes it holds, and every field is shown under its label.
pub open spec fn format_spec(
    registry: Option<SchemaRegistry>,
    msg: Option<MessageRef>,
    key: Seq<u8>,
    value: Seq<u8>,
) -> Option<FormattedModel> {
    if !valid_utf8(key) {
        None
    } else {
        match msg {
            None => if valid_utf8(value) {
                Some(FormattedModel::Text(decode_utf8(value)))
            } else {
                None
            },
            Some(m) => {
                let r = registry->Some_0;
                Some(
                    FormattedModel::Record(
                        RecordModel {
                            key: decode_utf8(key),
                            fields: convert_message_spec(
                                r@,
                                decode_spec(r.context(), r@, m, value),
                            ),
                        },
                    ),
                )
            },
        }
    }
}

/// Whether a result is the one that the model asks for: what is shown, or
/// the failure to decode text where nothing can be shown.
pub open spec fn shows(r: Result<Formatted, Error>, model: Option<FormattedModel>) -> bool {
    match model {
        Some(f) => r matches Ok(shown) && shown@ == f,
        None => r matches Err(Error::StringDecodeError(_)),
    }
}

/// Decides what a stored pair is shown as, as `format_spec` says. Text that
/// is shown as text is the very text whose encoding the value is.
pub fn format_value(
    registry: &Option<SchemaRegistry>,
    msg: Option<MessageRef>,
    key: Vec<u8>,
    value: Vec<u8>,
) -> (r: Result<Formatted, Error>)
    requires
        format_ready(*registry, msg),
    ensures
        shows(r, format_spec(*registry, msg, key@, value@)),
        r is Err <==> !valid_utf8(key@) || (msg is None && !valid_utf8(value@)),
        r matches Err(e) ==> e is StringDecodeError,
        msg is None && valid_utf8(key@) && valid_utf8(value@) ==> (r matches Ok(
            Formatted::Text(s),
        ) && encode_utf8(s@) == value@),
{
    let dec_key = match decode_text(key) {
        Ok(k) => k,
        Err(e) => {
            return Err(e);
        },
    };
    match msg {
        None => match decode_text(value) {
            Ok(text) => Ok(Formatted::Text(text)),
            Err(e) => Err(e),
        },
        Some(m) => match registry {
            Some(reg) => {
                let decoded = decode_message(reg, m, value.as_slice());
                let fields = convert_message(reg, &decoded);
                Ok(Formatted::Record(Record { key: dec_key, fields }))
            },
            None => {
                assert(false);
                vstd::pervasive::unreached()
            },
        },
    }
}

/// A record as the document that is printed for it: an object with the
/// key, then the fields.
pub open spec fn record_document(r: RecordModel) -> Json {
    Json::Object(
        seq![
            MemberModel { name: "key"@, value: Json::String(r.key) },
            MemberModel { name: "fields"@, value: Json::Object(r.fields) },
        ],
    )
}

/// The text that is printed: text as it is, a record as the indented JSON
/// text of its document.
pub open spec fn render_spec(f: FormattedModel) -> Seq<char> {
    match f {
        FormattedModel::Text(s) => s,
        FormattedModel::Record(r) => pretty_text(written(record_document(r))),
    }
}

/// Whether a result is the text that the model asks for, or the failure to
/// decode text where nothing can be shown.
pub open spec fn prints(r: Result<String, Error>, model: Option<FormattedModel>) -> bool {
    match model {
        Some(f) => r matches Ok(s) && s@ == render_spec(f),
        None => r matches Err(Error::StringDecodeError(_)),
    }
}

/// Writes the text that is printed.
pub fn render(shown: Formatted) -> (s: String)
    ensures
        s@ == render_spec(shown@),
{
    match shown {
        Formatted::Text(text) => text,
        Formatted::Record(record) => {
            let ghost model = record@;
            let mut members: Vec<Member> = Vec::new();
            members.push(Member { name: String::from_str("key"), value: Document::String(record.key) });
            let fields = Document::Object(record.fields);
            proof {
                lemma_document_parts(fields);
            }
            members.push(Member { name: String::from_str("fields"), value: fields });
            let document = Document::Object(members);
            proof {
                lemma_document_parts(document);
                assert(members_view(members@) =~= record_document(model)->Object_0);
            }
            pretty(&to_json(&document))
        },
    }
}

/// Shows a stored pair as printable text: what `format_spec` says, written
/// as `render_spec` says.
pub fn format_kv(
    registry: &Option<SchemaRegistry>,
    msg: Option<MessageRef>,
    key: Vec<u8>,
    value: Vec<u8>,
) -> (r: Result<String, Error>)
    requires
        format_ready(*registry, msg),
    ensures
        prints(r, format_spec(*registry, msg, key@, value@)),
        r is Err <==> !valid_utf8(key@) || (msg is None && !valid_utf8(value@)),
        r matches Err(e) ==> e is StringDecodeError,
        msg is None && valid_utf8(key@) && valid_utf8(value@) ==> (r matches Ok(s) && encode_utf8(
            s@,
        ) == value@),
{
    match format_value(registry, msg, key, value) {
        Ok(shown) => Ok(render(shown)),
        Err(e) => Err(e),
    }
}

/// The pairs that are shown, as mathematical values.
pub open spec fn pairs_view(pairs: Seq<(Vec<u8>, Vec<u8>)>) -> Seq<(Seq<u8>, Seq<u8>)> {
    Seq::new(pairs.len(), |i: int| (pairs[i].0@, pairs[i].1@))
}

/// The number of pairs, from the first on, that can be shown.
pub open spec fn shown_count(
    registry: Option<SchemaRegistry>,
    msg: Option<MessageRef>,
    pairs: Seq<(Seq<u8>, Seq<u8>)>,
    from: int,
) -> int
    decreases pairs.len() - from,
{
    if from < 0 || from >= pairs.len() {
        from
    } else if format_spec(registry, msg, pairs[from].0, pairs[from].1) is None {
        from
    } else {
        shown_count(registry, msg, pairs, from + 1)
    }
}

/// Shows the pairs of a range in the order given, up to the first that
/// cannot be shown: the texts of those before it come back with the
/// failure.
pub fn format_pairs(
    registry: &Option<SchemaRegistry>,
    msg: Option<MessageRef>,
    pairs: &Vec<(Vec<u8>, Vec<u8>)>,
) -> (r: (Vec<String>, Option<Error>))
    requires
        format_ready(*registry, msg),
    ensures
        r.0@.len() == shown_count(*registry, msg, pairs_view(pairs@), 0),
        r.0@.len() <= pairs@.len(),
        forall|i: int|
            0 <= i < r.0@.len() ==> prints(
                Ok((#[trigger] r.0@[i])),
                format_spec(*registry, msg, pairs@[i].0@, pairs@[i].1@),
            ),
        r.1 is None <==> r.0@.len() == pairs@.len(),
        r.1 matches Some(e) ==> prints(
            Err(e),
            format_spec(*registry, msg, pairs@[r.0@.len() as int].0@, pairs@[r.0@.len() as int].1@),
        ),
{
    let mut out: Vec<String> = Vec::new();
    let mut i: usize = 0;
    while i < pairs.len()
        invariant
            format_ready(*registry, msg),
            i <= pairs.len(),
            out@.len() == i,
            shown_count(*registry, msg, pairs_view(pairs@), 0) == shown_count(
                *registry,
                msg,
                pairs_view(pairs@),
                i as int,
            ),
            forall|k: int|
                0 <= k < i ==> prints(
                    Ok((#[trigger] out@[k])),
                    format_spec(*registry, msg, pairs@[k].0@, pairs@[k].1@),
                ),
        decreases pairs.len() - i,
    {
        let key = pairs[i].0.clone();
        let value = pairs[i].1.clone();
        assert(pairs_view(pairs@)[i as int] == (pairs@[i as int].0@, pairs@[i as int].1@));
        match format_kv(registry, msg, key, value) {
            Ok(text) => {
                out.push(text);
            },
            Err(e) => {
                return (out, Some(e));
            },
        }
        i = i + 1;
    }
    (out, None)
}

} // verus!
