//! The schema registry: the message and enum descriptors of a parsed
//! schema, looked up by reference, number and name.

use vstd::prelude::*;

verus! {

/// The schema parser's context: what it made of the schema text. Nothing
/// of its inside is seen here; what it holds is named below.
#[verifier::external_type_specification]
#[verifier::external_body]
pub struct ExContext(protofish::context::Context);

/// The reference by which a context knows one of its messages.
#[verifier::external_type_specification]
#[verifier::external_body]
pub struct ExMessageRef(protofish::context::MessageRef);

/// The reference by which a context knows one of its enums.
#[verifier::external_type_specification]
#[verifier::external_body]
pub struct ExEnumRef(protofish::context::EnumRef);

/// The field types that travel as a varint.
#[derive(Clone, Copy, Debug)]
pub enum VarintKind {
    Int32,
    Int64,
    UInt32,
    UInt64,
    SInt32,
    SInt64,
    Bool,
    Enum(protofish::context::EnumRef),
}

/// The field types that travel as four or eight bytes.
#[derive(Clone, Copy, Debug)]
pub enum FixedKind {
    Double,
    Float,
    Fixed32,
    Fixed64,
    SFixed32,
    SFixed64,
}

/// The field types that travel as a length and that many bytes.
#[derive(Clone, Copy, Debug)]
pub enum DelimitedKind {
    Text,
    Bytes,
    Message(protofish::context::MessageRef),
}

/// The declared type of a field, by the way it travels.
#[derive(Clone, Copy, Debug)]
pub enum FieldKind {
    Varint(VarintKind),
    Fixed(FixedKind),
    Delimited(DelimitedKind),
}

/// A field of a message, as a mathematical value.
pub struct FieldModel {
    pub name: Seq<char>,
    pub kind: FieldKind,
    pub packed: bool,
}

/// A field of a message.
#[derive(Debug)]
pub struct FieldDescriptor {
    pub name: String,
    pub kind: FieldKind,
    /// Whether the field is repeated and travels as one packed block.
    pub packed: bool,
}

impl View for FieldDescriptor {
    type V = FieldModel;

    open spec fn view(&self) -> FieldModel {
        FieldModel { name: self.name@, kind: self.kind, packed: self.packed }
    }
}

/// The references that a context resolves to one of its messages.
pub uninterp spec fn registry_messages(ctx: protofish::context::Context) -> Set<
    protofish::context::MessageRef,
>;

/// The references that a context resolves to one of its enums.
pub uninterp spec fn registry_enums(ctx: protofish::context::Context) -> Set<
    protofish::context::EnumRef,
>;

/// The fields that a context holds, by message and field number.
pub uninterp spec fn registry_fields(ctx: protofish::context::Context) -> Map<
    (protofish::context::MessageRef, u64),
    FieldModel,
>;

/// The symbols that a context holds, by enum and number.
pub uninterp spec fn registry_symbols(ctx: protofish::context::Context) -> Map<
    (protofish::context::EnumRef, i64),
    Seq<char>,
>;

/// The messages that a context holds, by full name.
pub uninterp spec fn registry_names(ctx: protofish::context::Context) -> Map<
    Seq<char>,
    protofish::context::MessageRef,
>;

/// A schema as a mathematical value.
pub struct Schema {
    pub messages: Set<protofish::context::MessageRef>,
    pub enums: Set<protofish::context::EnumRef>,
    pub fields: Map<(protofish::context::MessageRef, u64), FieldModel>,
    pub symbols: Map<(protofish::context::EnumRef, i64), Seq<char>>,
    pub names: Map<Seq<char>, protofish::context::MessageRef>,
}

impl Schema {
    /// The field of message `m` with the given number, if it has one.
    pub open spec fn field(self, m: protofish::context::MessageRef, number: u64) -> Option<
        FieldModel,
    > {
        if self.fields.contains_key((m, number)) {
            Some(self.fields[(m, number)])
        } else {
            None
        }
    }

    /// The symbol of enum `e` for the given number, if it has one.
    pub open spec fn symbol(self, e: protofish::context::EnumRef, value: i64) -> Option<
        Seq<char>,
    > {
        if self.symbols.contains_key((e, value)) {
            Some(self.symbols[(e, value)])
        } else {
            None
        }
    }

    /// The message with the given full name, if there is one.
    pub open spec fn message(self, name: Seq<char>) -> Option<protofish::context::MessageRef> {
        if self.names.contains_key(name) {
            Some(self.names[name])
        } else {
            None
        }
    }

    /// Every reference that the schema hands out is one of its own: the
    /// messages that have fields, and the messages and enums that fields
    /// are declared as.
    pub open spec fn closed(self) -> bool {
        forall|m: protofish::context::MessageRef, n: u64| #[trigger]
            self.fields.contains_key((m, n)) ==> {
                &&& self.messages.contains(m)
                &&& (self.fields[(m, n)].kind matches FieldKind::Delimited(
                    DelimitedKind::Message(r),
                ) ==> self.messages.contains(r))
                &&& (self.fields[(m, n)].kind matches FieldKind::Varint(VarintKind::Enum(e))
                    ==> self.enums.contains(e))
            }
    }
}

/// `Context::get_message`, reduced to the reference of the message found:
/// the message of that full name, if the context holds one. The reference
/// is the one that the context resolves to that message.
#[verifier::external_body]
fn context_find_message(ctx: &protofish::context::Context, name: &str) -> (r: Option<
    protofish::context::MessageRef,
>)
    ensures
        r == (if registry_names(*ctx).contains_key(name@) {
            Some(registry_names(*ctx)[name@])
        } else {
            None
        }),
        r matches Some(m) ==> registry_messages(*ctx).contains(m),
{
    ctx.get_message(name).map(|m| m.self_ref)
}

/// `Context::resolve_message` and `MessageInfo::get_field`, reduced to the
/// field's name. The message has to be one of the context.
#[verifier::external_body]
fn context_field_name(
    ctx: &protofish::context::Context,
    m: protofish::context::MessageRef,
    number: u64,
) -> (r: Option<String>)
    requires
        registry_messages(*ctx).contains(m),
    ensures
        r is Some <==> registry_fields(*ctx).contains_key((m, number)),
        r matches Some(s) ==> s@ == registry_fields(*ctx)[(m, number)].name,
{
    ctx.resolve_message(m).get_field(number).map(|f| f.name.clone())
}

/// `MessageInfo::get_field`, reduced to whether the field is there and is
/// repeated in packed form.
#[verifier::external_body]
fn context_field_packed(
    ctx: &protofish::context::Context,
    m: protofish::context::MessageRef,
    number: u64,
) -> (r: bool)
    requires
        registry_messages(*ctx).contains(m),
    ensures
        r == (registry_fields(*ctx).contains_key((m, number)) && registry_fields(*ctx)[(
            m,
            number,
        )].packed),
{
    match ctx.resolve_message(m).get_field(number) {
        Some(f) => matches!(f.multiplicity, protofish::context::Multiplicity::RepeatedPacked),
        None => false,
    }
}

/// `MessageInfo::get_field`, reduced to the field's type where that is one
/// of the varint types.
#[verifier::external_body]
fn context_field_varint(
    ctx: &protofish::context::Context,
    m: protofish::context::MessageRef,
    number: u64,
) -> (r: Option<VarintKind>)
    requires
        registry_messages(*ctx).contains(m),
    ensures
        r == (if registry_fields(*ctx).contains_key((m, number)) {
            match registry_fields(*ctx)[(m, number)].kind {
                FieldKind::Varint(k) => Some(k),
                _ => None,
            }
        } else {
            None
        }),
{
    match &ctx.resolve_message(m).get_field(number)?.field_type {
        protofish::context::ValueType::Int32 => Some(VarintKind::Int32),
        protofish::context::ValueType::Int64 => Some(VarintKind::Int64),
        protofish::context::ValueType::UInt32 => Some(VarintKind::UInt32),
        protofish::context::ValueType::UInt64 => Some(VarintKind::UInt64),
        protofish::context::ValueType::SInt32 => Some(VarintKind::SInt32),
        protofish::context::ValueType::SInt64 => Some(VarintKind::SInt64),
        protofish::context::ValueType::Bool => Some(VarintKind::Bool),
        protofish::context::ValueType::Enum(e) => Some(VarintKind::Enum(*e)),
        _ => None,
    }
}

/// `MessageInfo::get_field`, reduced to the field's type where that is one
/// of the fixed-width types.
#[verifier::external_body]
fn context_field_fixed(
    ctx: &protofish::context::Context,
    m: protofish::context::MessageRef,
    number: u64,
) -> (r: Option<FixedKind>)
    requires
        registry_messages(*ctx).contains(m),
    ensures
        r == (if registry_fields(*ctx).contains_key((m, number)) {
            match registry_fields(*ctx)[(m, number)].kind {
                FieldKind::Fixed(k) => Some(k),
                _ => None,
            }
        } else {
            None
        }),
{
    match &ctx.resolve_message(m).get_field(number)?.field_type {
        protofish::context::ValueType::Double => Some(FixedKind::Double),
        protofish::context::ValueType::Float => Some(FixedKind::Float),
        protofish::context::ValueType::Fixed32 => Some(FixedKind::Fixed32),
        protofish::context::ValueType::Fixed64 => Some(FixedKind::Fixed64),
        protofish::context::ValueType::SFixed32 => Some(FixedKind::SFixed32),
        protofish::context::ValueType::SFixed64 => Some(FixedKind::SFixed64),
        _ => None,
    }
}

/// `MessageInfo::get_field`, reduced to the field's type where that is
/// text, bytes or a message.
#[verifier::external_body]
fn context_field_delimited(
    ctx: &protofish::context::Context,
    m: protofish::context::MessageRef,
    number: u64,
) -> (r: Option<DelimitedKind>)
    requires
        registry_messages(*ctx).contains(m),
    ensures
        r == (if registry_fields(*ctx).contains_key((m, number)) {
            match registry_fields(*ctx)[(m, number)].kind {
                FieldKind::Delimited(k) => Some(k),
                _ => None,
            }
        } else {
            None
        }),
{
    match &ctx.resolve_message(m).get_field(number)?.field_type {
        protofish::context::ValueType::String => Some(DelimitedKind::Text),
        protofish::context::ValueType::Bytes => Some(DelimitedKind::Bytes),
        protofish::context::ValueType::Message(r) => Some(DelimitedKind::Message(*r)),
        _ => None,
    }
}

/// `Context::resolve_enum` and `EnumInfo::get_field_by_value`, reduced to
/// the symbol's name. The enum has to be one of the context.
#[verifier::external_body]
fn context_enum_symbol(
    ctx: &protofish::context::Context,
    e: protofish::context::EnumRef,
    value: i64,
) -> (r: Option<String>)
    requires
        registry_enums(*ctx).contains(e),
    ensures
        r is Some <==> registry_symbols(*ctx).contains_key((e, value)),
        r matches Some(s) ==> s@ == registry_symbols(*ctx)[(e, value)] && registry_enums(
            *ctx,
        ).contains(e),
{
    ctx.resolve_enum(e).get_field_by_value(value).map(|f| f.name.clone())
}

/// The descriptors of a schema, read-only once built.
pub struct SchemaRegistry {
    context: protofish::context::Context,
}

impl View for SchemaRegistry {
    type V = Schema;

    closed spec fn view(&self) -> Schema {
        Schema {
            messages: registry_messages(self.context),
            enums: registry_enums(self.context),
            fields: registry_fields(self.context),
            symbols: registry_symbols(self.context),
            names: registry_names(self.context),
        }
    }
}

impl SchemaRegistry {
    /// The parsed schema that the registry serves from.
    pub closed spec fn context(&self) -> protofish::context::Context {
        self.context
    }

    /// What a context holds, as a schema.
    pub open spec fn schema_of(ctx: protofish::context::Context) -> Schema {
        Schema {
            messages: registry_messages(ctx),
            enums: registry_enums(ctx),
            fields: registry_fields(ctx),
            symbols: registry_symbols(ctx),
            names: registry_names(ctx),
        }
    }

    /// The registry's invariant: its schema is closed.
    pub open spec fn wf(&self) -> bool {
        self@.closed()
    }

    /// A registry over a parsed schema. The context has to be closed. Every
    /// context that the schema parser returns is; a context that was put
    /// together by hand need not be, and a context offers no way to find
    /// out: it lists neither its types nor their names, and it resolves a
    /// reference or panics.
    pub fn new(context: protofish::context::Context) -> (r: Self)
        requires
            Self::schema_of(context).closed(),
        ensures
            r.wf(),
            r.context() == context,
            r@ == Self::schema_of(context),
    {
        SchemaRegistry { context }
    }

    /// The parsed schema, for the decoder.
    pub(crate) fn as_context(&self) -> (c: &protofish::context::Context)
        ensures
            *c == self.context(),
            Self::schema_of(*c) == self@,
    {
        &self.context
    }

    /// Looks a message up by its full name.
    pub fn get_message(&self, name: &str) -> (r: Option<protofish::context::MessageRef>)
        requires
            self.wf(),
        ensures
            r == self@.message(name@),
            r matches Some(m) ==> self@.messages.contains(m),
    {
        context_find_message(&self.context, name)
    }

    /// Looks a field up by its number.
    pub fn field(&self, m: protofish::context::MessageRef, number: u64) -> (r: Option<
        FieldDescriptor,
    >)
        requires
            self.wf(),
            self@.messages.contains(m),
        ensures
            r is Some <==> self@.field(m, number) is Some,
            r matches Some(d) ==> self@.field(m, number) == Some(d@),
    {
        let name = match context_field_name(&self.context, m, number) {
            Some(name) => name,
            None => { return None; },
        };
        let packed = context_field_packed(&self.context, m, number);
        let kind = match context_field_varint(&self.context, m, number) {
            Some(k) => FieldKind::Varint(k),
            None => match context_field_fixed(&self.context, m, number) {
                Some(k) => FieldKind::Fixed(k),
                None => match context_field_delimited(&self.context, m, number) {
                    Some(k) => FieldKind::Delimited(k),
                    None => {
                        assert(false);
                        return None;
                    },
                },
            },
        };
        Some(FieldDescriptor { name, kind, packed })
    }

    /// The name of a field, by its number.
    pub fn field_name(&self, m: protofish::context::MessageRef, number: u64) -> (r: Option<
        String,
    >)
        requires
            self.wf(),
            self@.messages.contains(m),
        ensures
            r is Some <==> self@.field(m, number) is Some,
            r matches Some(s) ==> self@.field(m, number) matches Some(f) && f.name == s@,
    {
        context_field_name(&self.context, m, number)
    }

    /// The symbol of an enum number.
    pub fn enum_symbol(&self, e: protofish::context::EnumRef, value: i64) -> (r: Option<String>)
        requires
            self.wf(),
            self@.enums.contains(e),
        ensures
            r is Some <==> self@.symbol(e, value) is Some,
            r matches Some(s) ==> self@.symbol(e, value) == Some(s@),
    {
        context_enum_symbol(&self.context, e, value)
    }
}

} // verus!
