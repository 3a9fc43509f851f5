//! What each operation asks of the store, and what it asks of the user
//! before it does so.

use vstd::prelude::*;
use vstd::string::{StrSliceExecFns, StringExecFns};
use vstd::utf8::*;
use protofish::context::MessageRef;
use crate::cli::{opt_view, Space, SpaceView};
use crate::format::format_ready;
use crate::registry::SchemaRegistry;

verus! {

/// A change to make in the store.
#[derive(Debug, PartialEq, Eq)]
pub enum StoreAction {
    /// Leave the store as it is.
    Nothing,
    /// Remove one key.
    Clear { key: Vec<u8> },
    /// Remove the keys from `start` up to, and without, `end`.
    ClearRange { start: Vec<u8>, end: Vec<u8> },
}

/// A question to put to the store.
#[derive(Debug, PartialEq, Eq)]
pub enum StoreQuery {
    /// The value of one key.
    Get { key: Vec<u8> },
    /// The pairs whose keys lie from `start` up to, and without, `end`.
    GetRange { start: Vec<u8>, end: Vec<u8> },
}

/// A change to make in the store, as a mathematical value.
pub enum ActionModel {
    Nothing,
    Clear { key: Seq<u8> },
    ClearRange { start: Seq<u8>, end: Seq<u8> },
}

/// A question to put to the store, as a mathematical value.
pub enum QueryModel {
    Get { key: Seq<u8> },
    GetRange { start: Seq<u8>, end: Seq<u8> },
}

impl View for StoreAction {
    type V = ActionModel;

    open spec fn view(&self) -> ActionModel {
        match self {
            StoreAction::Nothing => ActionModel::Nothing,
            StoreAction::Clear { key } => ActionModel::Clear { key: key@ },
            StoreAction::ClearRange { start, end } => ActionModel::ClearRange {
                start: start@,
                end: end@,
            },
        }
    }
}

impl View for StoreQuery {
    type V = QueryModel;

    open spec fn view(&self) -> QueryModel {
        match self {
            StoreQuery::Get { key } => QueryModel::Get { key: key@ },
            StoreQuery::GetRange { start, end } => QueryModel::GetRange {
                start: start@,
                end: end@,
            },
        }
    }
}

/// Where a range ends: at the end given, and at the single zero byte where
/// none is.
pub open spec fn range_end_spec(end: Option<Seq<char>>) -> Seq<u8> {
    match end {
        Some(e) => encode_utf8(e),
        None => seq![0u8],
    }
}

/// The change that a deletion makes: none unless the user confirmed it.
pub open spec fn delete_action_spec(space: SpaceView, confirmed: bool) -> ActionModel {
    if !confirmed {
        ActionModel::Nothing
    } else {
        match space {
            SpaceView::Key(k) => ActionModel::Clear { key: encode_utf8(k.key) },
            SpaceView::Range(r) => ActionModel::ClearRange {
                start: encode_utf8(r.start),
                end: range_end_spec(r.end),
            },
        }
    }
}

/// The question that a lookup puts.
pub open spec fn get_query_spec(space: SpaceView) -> QueryModel {
    match space {
        SpaceView::Key(k) => QueryModel::Get { key: encode_utf8(k.key) },
        SpaceView::Range(r) => QueryModel::GetRange {
            start: encode_utf8(r.start),
            end: range_end_spec(r.end),
        },
    }
}

/// Whether `a` comes before `b` in the order of the store's keys: byte by
/// byte, a prefix before what extends it.
pub open spec fn key_before(a: Seq<u8>, b: Seq<u8>) -> bool
    decreases a.len(),
{
    if b.len() == 0 {
        false
    } else if a.len() == 0 {
        true
    } else if a[0] != b[0] {
        a[0] < b[0]
    } else {
        key_before(a.drop_first(), b.drop_first())
    }
}

/// The store after a change.
pub open spec fn store_after(store: Map<Seq<u8>, Seq<u8>>, action: ActionModel) -> Map<
    Seq<u8>,
    Seq<u8>,
> {
    match action {
        ActionModel::Nothing => store,
        ActionModel::Clear { key } => store.remove(key),
        ActionModel::ClearRange { start, end } => store.remove_keys(
            Set::new(|k: Seq<u8>| !key_before(k, start) && key_before(k, end)),
        ),
    }
}

/// A deletion that the user declined leaves every key of the store with the
/// value it had.
pub proof fn lemma_declined_delete_keeps_store(store: Map<Seq<u8>, Seq<u8>>, space: SpaceView)
    ensures
        store_after(store, delete_action_spec(space, false)) == store,
{
}

/// The end of a range as the store takes it.
pub fn range_end(end: &Option<String>) -> (r: Vec<u8>)
    ensures
        r@ == range_end_spec(opt_view(*end)),
{
    match end {
        Some(e) => e.as_str().as_bytes_vec(),
        None => {
            let mut r: Vec<u8> = Vec::new();
            r.push(0);
            assert(r@ =~= seq![0u8]);
            r
        },
    }
}

/// Decides what a deletion does to the store, given the user's answer.
pub fn delete_action(space: &Space, confirmed: bool) -> (r: StoreAction)
    ensures
        r@ == delete_action_spec(space@, confirmed),
        !confirmed ==> r == StoreAction::Nothing,
{
    if !confirmed {
        return StoreAction::Nothing;
    }
    match space {
        Space::Key(k) => StoreAction::Clear { key: k.key.as_str().as_bytes_vec() },
        Space::Range(r) => StoreAction::ClearRange {
            start: r.start.as_str().as_bytes_vec(),
            end: range_end(&r.end),
        },
    }
}

/// The question that a lookup puts to the store.
pub fn get_query(space: &Space) -> (r: StoreQuery)
    ensures
        r@ == get_query_spec(space@),
{
    match space {
        Space::Key(k) => StoreQuery::Get { key: k.key.as_str().as_bytes_vec() },
        Space::Range(r) => StoreQuery::GetRange {
            start: r.start.as_str().as_bytes_vec(),
            end: range_end(&r.end),
        },
    }
}

/// The question put to the user before the settings are reset.
pub const RESET_PROMPT: &'static str = "Are you sure [y/n]? ";

/// What is said when `setup set` was given no path.
pub const SETUP_HINT: &'static str = "Options are cluster-file, proto-file";

/// The question put to the user before a deletion.
pub open spec fn delete_prompt_spec(space: SpaceView) -> Seq<char> {
    match space {
        SpaceView::Key(k) => "Are you sure you want to delete the key `"@ + k.key
            + "` [y/n]? "@,
        SpaceView::Range(r) => "Are you sure you want to delete the range range (start: "@
            + r.start + ", end: "@ + (match r.end {
            Some(e) => e,
            None => "all"@,
        }) + ") [y/n]? "@,
    }
}

/// Words the question put to the user before a deletion.
pub fn delete_prompt(space: &Space) -> (s: String)
    ensures
        s@ == delete_prompt_spec(space@),
{
    match space {
        Space::Key(k) => String::from_str("Are you sure you want to delete the key `").concat(
            k.key.as_str(),
        ).concat("` [y/n]? "),
        Space::Range(r) => {
            let s = String::from_str("Are you sure you want to delete the range range (start: ");
            let s = s.concat(r.start.as_str()).concat(", end: ");
            let s = match &r.end {
                Some(e) => s.concat(e.as_str()),
                None => s.concat("all"),
            };
            s.concat(") [y/n]? ")
        },
    }
}

/// What is said of a key that the store does not hold.
pub fn missing_key_message(key: &str) -> (s: String)
    ensures
        s@ == "Could not find any entries with key: "@ + key@,
{
    String::from_str("Could not find any entries with key: ").concat(key)
}

/// The message type to decode values as: the registry's message of the
/// name asked for, and none where no name was given or the registry has no
/// message of that name. A name can only be asked for with a registry.
pub fn message_for(registry: &Option<SchemaRegistry>, proto: &Option<String>) -> (r: Option<
    MessageRef,
>)
    requires
        proto is Some ==> registry is Some,
        registry matches Some(reg) ==> reg.wf(),
    ensures
        format_ready(*registry, r),
        r == (match *proto {
            Some(name) => registry->Some_0@.message(name@),
            None => None,
        }),
{
    match proto {
        None => None,
        Some(name) => match registry {
            Some(reg) => reg.get_message(name.as_str()),
            None => {
                assert(false);
                None
            },
        },
    }
}

} // verus!
