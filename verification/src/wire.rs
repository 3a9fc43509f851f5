//! The wire format, read without building values: which inputs the decoder
//! can take. A varint of more than ten bytes, a number that does not fit
//! the declared type of its field, the two zigzag numbers whose magnitude
//! overflows, and messages nested deeper than `MAX_DEPTH` are what it
//! cannot.

use vstd::prelude::*;
use crate::registry::{DelimitedKind, FieldKind, FixedKind, Schema, SchemaRegistry, VarintKind};

verus! {

/// How many messages may be nested in one another below the outermost.
pub const MAX_DEPTH: usize = 100;

/// What reading a varint gives.
pub enum Read {
    /// The varint runs past its tenth byte.
    Unsafe,
    /// The input ends within the varint.
    Short,
    /// The varint's number, and the position after its last byte.
    Value { value: u64, next: int },
}

/// Where the input is read on after a field, unless the field is unsafe.
pub enum Step {
    Unsafe,
    Next(int),
}

/// The weight of the `i`-th group of seven bits.
pub open spec fn group_weight(i: int) -> int {
    if i == 0 {
        1
    } else if i == 1 {
        0x80
    } else if i == 2 {
        0x4000
    } else if i == 3 {
        0x20_0000
    } else if i == 4 {
        0x1000_0000
    } else if i == 5 {
        0x8_0000_0000
    } else if i == 6 {
        0x400_0000_0000
    } else if i == 7 {
        0x2_0000_0000_0000
    } else if i == 8 {
        0x100_0000_0000_0000
    } else {
        0x8000_0000_0000_0000
    }
}

/// What the `i`-th byte of a varint adds to its number: its low seven bits
/// at their weight. Of the tenth byte only the lowest bit is left within
/// 64 bits.
pub open spec fn group_value(b: u8, i: int) -> int {
    let low = (b % 128) as int;
    if i == 0 {
        low
    } else if i == 1 {
        low * 0x80
    } else if i == 2 {
        low * 0x4000
    } else if i == 3 {
        low * 0x20_0000
    } else if i == 4 {
        low * 0x1000_0000
    } else if i == 5 {
        low * 0x8_0000_0000
    } else if i == 6 {
        low * 0x400_0000_0000
    } else if i == 7 {
        low * 0x2_0000_0000_0000
    } else if i == 8 {
        low * 0x100_0000_0000_0000
    } else {
        (b % 2) * 0x8000_0000_0000_0000
    }
}

/// Reads a varint's bytes from the `i`-th on, `acc` being the number so far.
pub open spec fn varint_scan(data: Seq<u8>, pos: int, end: int, i: int, acc: int) -> Read
    decreases 10 - i,
{
    if pos + i >= end {
        Read::Short
    } else if i >= 10 {
        Read::Unsafe
    } else {
        let b = data[pos + i];
        let sum = acc + group_value(b, i);
        if b < 128 {
            Read::Value { value: sum as u64, next: pos + i + 1 }
        } else {
            varint_scan(data, pos, end, i + 1, sum)
        }
    }
}

/// Reads the varint that starts at `pos` in `data[..end]`.
pub open spec fn read_varint(data: Seq<u8>, pos: int, end: int) -> Read {
    varint_scan(data, pos, end, 0, 0)
}

/// A varint's number as the signed 64-bit number with the same bits.
pub open spec fn as_signed(v: u64) -> int {
    if v < 0x8000_0000_0000_0000 {
        v as int
    } else {
        v - 0x1_0000_0000_0000_0000
    }
}

/// Whether a number can be the value of a single field of a varint type.
/// The decoder reads an `int32` as a signed 64-bit number that has to lie
/// in the 32-bit range, a `uint32` and a `sint32` as an unsigned number
/// that has to, and a boolean as a number of the machine's word size. Of
/// the zigzag numbers it cannot take the largest: it adds the sign bit to
/// the magnitude before it applies the sign.
pub open spec fn single_value_safe(k: VarintKind, v: u64) -> bool {
    match k {
        VarintKind::Int32 => i32::MIN <= as_signed(v) <= i32::MAX,
        VarintKind::Int64 => true,
        VarintKind::UInt32 => v <= u32::MAX,
        VarintKind::UInt64 => true,
        VarintKind::SInt32 => v < u32::MAX,
        VarintKind::SInt64 => v < u64::MAX,
        VarintKind::Bool => v <= usize::MAX,
        VarintKind::Enum(_) => true,
    }
}

/// Whether a number can be an item of a packed field of a varint type.
/// In a packed block the decoder reads every item but a boolean as a
/// signed 64-bit number first, which then has to fit the item's type: an
/// unsigned item has to be non-negative as a signed number, so the upper
/// half of the unsigned 64-bit numbers is out. A boolean has to fit a
/// byte. Enum numbers cannot be packed.
pub open spec fn packed_value_safe(k: VarintKind, v: u64) -> bool {
    match k {
        VarintKind::Int32 => i32::MIN <= as_signed(v) <= i32::MAX,
        VarintKind::Int64 => true,
        VarintKind::UInt32 => v <= u32::MAX,
        VarintKind::UInt64 => as_signed(v) >= 0,
        VarintKind::SInt32 => v < u32::MAX,
        VarintKind::SInt64 => as_signed(v) >= 0,
        VarintKind::Bool => v <= 255,
        VarintKind::Enum(_) => false,
    }
}

/// The number of bytes of a fixed-width type.
pub open spec fn fixed_width(k: FixedKind) -> int {
    match k {
        FixedKind::Double => 8,
        FixedKind::Fixed64 => 8,
        FixedKind::SFixed64 => 8,
        FixedKind::Float => 4,
        FixedKind::Fixed32 => 4,
        FixedKind::SFixed32 => 4,
    }
}

/// The wire type that a field of the kind is sent with.
pub open spec fn kind_wire_type(kind: FieldKind) -> int {
    match kind {
        FieldKind::Varint(_) => 0,
        FieldKind::Fixed(k) => if fixed_width(k) == 8 {
            1
        } else {
            5
        },
        FieldKind::Delimited(_) => 2,
    }
}

/// The items of a packed block `data[pos..end]`: each is read in turn, a
/// short last one ends the block, and every number read has to fit.
pub open spec fn packed_items_safe(kind: FieldKind, data: Seq<u8>, pos: int, end: int) -> bool
    decreases end - pos,
{
    if pos >= end {
        true
    } else {
        match kind {
            FieldKind::Delimited(_) => false,
            FieldKind::Fixed(k) => if end - pos < fixed_width(k) {
                true
            } else {
                packed_items_safe(kind, data, pos + fixed_width(k), end)
            },
            FieldKind::Varint(k) => match read_varint(data, pos, end) {
                Read::Unsafe => false,
                Read::Short => true,
                Read::Value { value, next } => packed_value_safe(k, value) && pos < next <= end
                    && packed_items_safe(kind, data, next, end),
            },
        }
    }
}

/// A field that the schema does not declare, or not with this wire type:
/// its extent follows from the wire type alone. Where the input ends
/// within it, reading goes on right after the tag.
pub open spec fn unknown_step(wire_type: int, data: Seq<u8>, pos: int, end: int) -> Step {
    if wire_type == 0 {
        match read_varint(data, pos, end) {
            Read::Unsafe => Step::Unsafe,
            Read::Short => Step::Next(pos),
            Read::Value { value, next } => Step::Next(next),
        }
    } else if wire_type == 1 {
        if end - pos < 8 {
            Step::Next(pos)
        } else {
            Step::Next(pos + 8)
        }
    } else if wire_type == 2 {
        match read_varint(data, pos, end) {
            Read::Unsafe => Step::Unsafe,
            Read::Short => Step::Next(pos),
            Read::Value { value, next } => if value > usize::MAX {
                Step::Unsafe
            } else if value > end - next {
                Step::Next(pos)
            } else {
                Step::Next(next + value)
            },
        }
    } else if wire_type == 5 {
        if end - pos < 4 {
            Step::Next(pos)
        } else {
            Step::Next(pos + 4)
        }
    } else {
        Step::Next(end)
    }
}

/// A packed field: a length, then the block of items. Where the input ends
/// before the block does, nothing more is read.
pub open spec fn packed_step(kind: FieldKind, data: Seq<u8>, pos: int, end: int) -> Step {
    match read_varint(data, pos, end) {
        Read::Unsafe => Step::Unsafe,
        Read::Short => Step::Next(end),
        Read::Value { value, next } => if value > usize::MAX {
            Step::Unsafe
        } else if value > end - next {
            Step::Next(end)
        } else if kind is Delimited || kind matches FieldKind::Varint(VarintKind::Enum(_)) {
            Step::Unsafe
        } else if packed_items_safe(kind, data, next, next + value) {
            Step::Next(next + value)
        } else {
            Step::Unsafe
        },
    }
}

/// A field of the declared kind that is not packed. Where the input ends
/// within the value, nothing more is read. A nested message has to be safe
/// in turn, at one level less of `depth`.
pub open spec fn single_step(
    schema: Schema,
    kind: FieldKind,
    data: Seq<u8>,
    pos: int,
    end: int,
    depth: nat,
) -> Step
    decreases end - pos, 0int,
{
    match kind {
        FieldKind::Fixed(k) => if end - pos < fixed_width(k) {
            Step::Next(end)
        } else {
            Step::Next(pos + fixed_width(k))
        },
        FieldKind::Varint(k) => match read_varint(data, pos, end) {
            Read::Unsafe => Step::Unsafe,
            Read::Short => Step::Next(end),
            Read::Value { value, next } => if single_value_safe(k, value) {
                Step::Next(next)
            } else {
                Step::Unsafe
            },
        },
        FieldKind::Delimited(k) => match read_varint(data, pos, end) {
            Read::Unsafe => Step::Unsafe,
            Read::Short => Step::Next(end),
            Read::Value { value, next } => if value > usize::MAX {
                Step::Unsafe
            } else if value > end - next {
                Step::Next(end)
            } else {
                match k {
                    DelimitedKind::Message(r) => if depth > 0 && pos < next && message_safe(
                        schema,
                        r,
                        data,
                        next,
                        next + value,
                        (depth - 1) as nat,
                    ) {
                        Step::Next(next + value)
                    } else {
                        Step::Unsafe
                    },
                    _ => Step::Next(next + value),
                }
            },
        },
    }
}

/// The field that follows a tag: read as the schema declares the tag's
/// number, where it does so with the tag's wire type, and by the wire type
/// alone where it does not.
pub open spec fn field_step(
    schema: Schema,
    m: protofish::context::MessageRef,
    tag: u64,
    data: Seq<u8>,
    pos: int,
    end: int,
    depth: nat,
) -> Step
    decreases end - pos, 1int,
{
    let number = tag / 8;
    let wire_type = (tag % 8) as int;
    match schema.field(m, number) {
        Some(f) => if f.packed {
            if wire_type == 2 {
                packed_step(f.kind, data, pos, end)
            } else {
                unknown_step(wire_type, data, pos, end)
            }
        } else if kind_wire_type(f.kind) == wire_type {
            single_step(schema, f.kind, data, pos, end, depth)
        } else {
            unknown_step(wire_type, data, pos, end)
        },
        None => unknown_step(wire_type, data, pos, end),
    }
}

/// Whether `data[pos..end]` is an input that the decoder can take as a
/// message `m` of the schema, with messages nested in it down to `depth`
/// levels: tag after tag, every field read is safe. A tag that the input
/// ends within ends the reading.
pub open spec fn message_safe(
    schema: Schema,
    m: protofish::context::MessageRef,
    data: Seq<u8>,
    pos: int,
    end: int,
    depth: nat,
) -> bool
    decreases end - pos, 2int,
{
    if pos >= end {
        true
    } else {
        match read_varint(data, pos, end) {
            Read::Unsafe => false,
            Read::Short => true,
            Read::Value { value, next } => pos < next <= end && (match field_step(
                schema,
                m,
                value,
                data,
                next,
                end,
                depth,
            ) {
                Step::Unsafe => false,
                Step::Next(after) => next <= after <= end && message_safe(
                    schema,
                    m,
                    data,
                    after,
                    end,
                    depth,
                ),
            }),
        }
    }
}

/// Up to where the fields of a message can be read one after the other:
/// the position of the first tag that is unsafe, or whose field is, and the
/// end where there is none.
pub open spec fn safe_cut(
    schema: Schema,
    m: protofish::context::MessageRef,
    data: Seq<u8>,
    pos: int,
    end: int,
    depth: nat,
) -> int
    decreases end - pos,
{
    if pos >= end {
        pos
    } else {
        match read_varint(data, pos, end) {
            Read::Unsafe => pos,
            Read::Short => end,
            Read::Value { value, next } => if pos < next <= end {
                match field_step(schema, m, value, data, next, end, depth) {
                    Step::Unsafe => pos,
                    Step::Next(after) => if next <= after <= end {
                        safe_cut(schema, m, data, after, end, depth)
                    } else {
                        pos
                    },
                }
            } else {
                pos
            },
        }
    }
}

/// An input that is safe throughout is cut nowhere before its end.
pub proof fn lemma_safe_is_uncut(
    schema: Schema,
    m: protofish::context::MessageRef,
    data: Seq<u8>,
    pos: int,
    end: int,
    depth: nat,
)
    requires
        pos <= end,
        message_safe(schema, m, data, pos, end, depth),
    ensures
        safe_cut(schema, m, data, pos, end, depth) == end,
    decreases end - pos,
{
    if pos < end {
        match read_varint(data, pos, end) {
            Read::Value { value, next } => {
                match field_step(schema, m, value, data, next, end, depth) {
                    Step::Next(after) => {
                        lemma_safe_is_uncut(schema, m, data, after, end, depth);
                    },
                    Step::Unsafe => {},
                }
            },
            _ => {},
        }
    }
}

/// A cut lies between where reading starts and the end.
pub proof fn lemma_cut_bounds(
    schema: Schema,
    m: protofish::context::MessageRef,
    data: Seq<u8>,
    pos: int,
    end: int,
    depth: nat,
)
    requires
        pos <= end,
    ensures
        pos <= safe_cut(schema, m, data, pos, end, depth) <= end,
    decreases end - pos,
{
    if pos < end {
        match read_varint(data, pos, end) {
            Read::Value { value, next } => {
                if pos < next <= end {
                    match field_step(schema, m, value, data, next, end, depth) {
                        Step::Next(after) => {
                            if next <= after <= end {
                                lemma_cut_bounds(schema, m, data, after, end, depth);
                            }
                        },
                        Step::Unsafe => {},
                    }
                }
            },
            _ => {},
        }
    }
}

/// An input that is cut nowhere before its end is safe throughout.
pub proof fn lemma_uncut_is_safe(
    schema: Schema,
    m: protofish::context::MessageRef,
    data: Seq<u8>,
    pos: int,
    end: int,
    depth: nat,
)
    requires
        pos <= end,
        safe_cut(schema, m, data, pos, end, depth) == end,
    ensures
        message_safe(schema, m, data, pos, end, depth),
    decreases end - pos,
{
    if pos < end {
        match read_varint(data, pos, end) {
            Read::Value { value, next } => {
                if pos < next <= end {
                    match field_step(schema, m, value, data, next, end, depth) {
                        Step::Next(after) => {
                            if next <= after <= end {
                                lemma_uncut_is_safe(schema, m, data, after, end, depth);
                            }
                        },
                        Step::Unsafe => {},
                    }
                }
            },
            _ => {},
        }
    }
}

/// What reading a varint gives, with a position that fits the machine.
pub enum ReadAt {
    Unsafe,
    Short,
    Value { value: u64, next: usize },
}

impl View for ReadAt {
    type V = Read;

    open spec fn view(&self) -> Read {
        match self {
            ReadAt::Unsafe => Read::Unsafe,
            ReadAt::Short => Read::Short,
            ReadAt::Value { value, next } => Read::Value { value: *value, next: *next as int },
        }
    }
}

/// Where the input is read on, with a position that fits the machine.
pub enum StepAt {
    Unsafe,
    Next(usize),
}

impl View for StepAt {
    type V = Step;

    open spec fn view(&self) -> Step {
        match self {
            StepAt::Unsafe => Step::Unsafe,
            StepAt::Next(p) => Step::Next(*p as int),
        }
    }
}

fn group_of(b: u8, i: usize) -> (g: u64)
    requires
        i < 10,
    ensures
        g == group_value(b, i as int),
        i < 9 ==> g <= 127 * group_weight(i as int),
        i == 9 ==> g <= 0x8000_0000_0000_0000,
{
    let low: u64 = (b % 128) as u64;
    if i == 0 {
        low
    } else if i == 1 {
        low * 0x80
    } else if i == 2 {
        low * 0x4000
    } else if i == 3 {
        low * 0x20_0000
    } else if i == 4 {
        low * 0x1000_0000
    } else if i == 5 {
        low * 0x8_0000_0000
    } else if i == 6 {
        low * 0x400_0000_0000
    } else if i == 7 {
        low * 0x2_0000_0000_0000
    } else if i == 8 {
        low * 0x100_0000_0000_0000
    } else {
        ((b % 2) as u64) * 0x8000_0000_0000_0000
    }
}

/// Reads the varint that starts at `pos`.
pub fn read_varint_at(data: &[u8], pos: usize, end: usize) -> (r: ReadAt)
    requires
        pos <= end <= data@.len(),
    ensures
        r@ == read_varint(data@, pos as int, end as int),
        r matches ReadAt::Value { value, next } ==> pos < next <= end,
{
    let mut i: usize = 0;
    let mut acc: u64 = 0;
    loop
        invariant
            pos <= end <= data@.len(),
            i <= 10,
            pos + i <= end,
            i <= 9 ==> acc < group_weight(i as int),
            read_varint(data@, pos as int, end as int) == varint_scan(
                data@,
                pos as int,
                end as int,
                i as int,
                acc as int,
            ),
        decreases 10 - i,
    {
        if i >= end - pos {
            return ReadAt::Short;
        }
        if i >= 10 {
            return ReadAt::Unsafe;
        }
        let b = data[pos + i];
        let g = group_of(b, i);
        assert(i < 9 ==> 128 * group_weight(i as int) == group_weight(i + 1));
        let sum: u64 = acc + g;
        if b < 128 {
            return ReadAt::Value { value: sum, next: pos + i + 1 };
        }
        acc = sum;
        i = i + 1;
    }
}

fn single_value_ok(k: VarintKind, v: u64) -> (ok: bool)
    ensures
        ok == single_value_safe(k, v),
{
    match k {
        VarintKind::Int32 => v <= 0x7fff_ffff || v >= 0xffff_ffff_8000_0000,
        VarintKind::Int64 => true,
        VarintKind::UInt32 => v <= 0xffff_ffff,
        VarintKind::UInt64 => true,
        VarintKind::SInt32 => v < 0xffff_ffff,
        VarintKind::SInt64 => v < 0xffff_ffff_ffff_ffff,
        VarintKind::Bool => v <= usize::MAX as u64,
        VarintKind::Enum(_) => true,
    }
}

fn packed_value_ok(k: VarintKind, v: u64) -> (ok: bool)
    ensures
        ok == packed_value_safe(k, v),
{
    match k {
        VarintKind::Int32 => v <= 0x7fff_ffff || v >= 0xffff_ffff_8000_0000,
        VarintKind::Int64 => true,
        VarintKind::UInt32 => v <= 0xffff_ffff,
        VarintKind::UInt64 => v < 0x8000_0000_0000_0000,
        VarintKind::SInt32 => v < 0xffff_ffff,
        VarintKind::SInt64 => v < 0x8000_0000_0000_0000,
        VarintKind::Bool => v <= 255,
        VarintKind::Enum(_) => false,
    }
}

fn width_of(k: FixedKind) -> (w: usize)
    ensures
        w == fixed_width(k),
        w == 4 || w == 8,
{
    match k {
        FixedKind::Double => 8,
        FixedKind::Fixed64 => 8,
        FixedKind::SFixed64 => 8,
        FixedKind::Float => 4,
        FixedKind::Fixed32 => 4,
        FixedKind::SFixed32 => 4,
    }
}

fn wire_type_of(kind: FieldKind) -> (t: u8)
    ensures
        t == kind_wire_type(kind),
{
    match kind {
        FieldKind::Varint(_) => 0,
        FieldKind::Fixed(k) => if width_of(k) == 8 {
            1
        } else {
            5
        },
        FieldKind::Delimited(_) => 2,
    }
}

fn packed_items_ok(kind: FieldKind, data: &[u8], pos: usize, end: usize) -> (ok: bool)
    requires
        pos <= end <= data@.len(),
    ensures
        ok == packed_items_safe(kind, data@, pos as int, end as int),
{
    let mut at = pos;
    while at < end
        invariant
            pos <= at <= end <= data@.len(),
            packed_items_safe(kind, data@, pos as int, end as int) == packed_items_safe(
                kind,
                data@,
                at as int,
                end as int,
            ),
        decreases end - at,
    {
        match kind {
            FieldKind::Delimited(_) => {
                return false;
            },
            FieldKind::Fixed(k) => {
                let w = width_of(k);
                if end - at < w {
                    return true;
                }
                at = at + w;
            },
            FieldKind::Varint(k) => match read_varint_at(data, at, end) {
                ReadAt::Unsafe => {
                    return false;
                },
                ReadAt::Short => {
                    return true;
                },
                ReadAt::Value { value, next } => {
                    if !packed_value_ok(k, value) {
                        return false;
                    }
                    at = next;
                },
            },
        }
    }
    true
}

fn unknown_after(wire_type: u8, data: &[u8], pos: usize, end: usize) -> (r: StepAt)
    requires
        pos <= end <= data@.len(),
    ensures
        r@ == unknown_step(wire_type as int, data@, pos as int, end as int),
        r matches StepAt::Next(p) ==> pos <= p <= end,
{
    if wire_type == 0 {
        match read_varint_at(data, pos, end) {
            ReadAt::Unsafe => StepAt::Unsafe,
            ReadAt::Short => StepAt::Next(pos),
            ReadAt::Value { value, next } => StepAt::Next(next),
        }
    } else if wire_type == 1 {
        if end - pos < 8 {
            StepAt::Next(pos)
        } else {
            StepAt::Next(pos + 8)
        }
    } else if wire_type == 2 {
        match read_varint_at(data, pos, end) {
            ReadAt::Unsafe => StepAt::Unsafe,
            ReadAt::Short => StepAt::Next(pos),
            ReadAt::Value { value, next } => if value > usize::MAX as u64 {
                StepAt::Unsafe
            } else if value > (end - next) as u64 {
                StepAt::Next(pos)
            } else {
                StepAt::Next(next + value as usize)
            },
        }
    } else if wire_type == 5 {
        if end - pos < 4 {
            StepAt::Next(pos)
        } else {
            StepAt::Next(pos + 4)
        }
    } else {
        StepAt::Next(end)
    }
}

fn packed_after(kind: FieldKind, data: &[u8], pos: usize, end: usize) -> (r: StepAt)
    requires
        pos <= end <= data@.len(),
    ensures
        r@ == packed_step(kind, data@, pos as int, end as int),
        r matches StepAt::Next(p) ==> pos <= p <= end,
{
    match read_varint_at(data, pos, end) {
        ReadAt::Unsafe => StepAt::Unsafe,
        ReadAt::Short => StepAt::Next(end),
        ReadAt::Value { value, next } => {
            if value > usize::MAX as u64 {
                return StepAt::Unsafe;
            }
            if value > (end - next) as u64 {
                return StepAt::Next(end);
            }
            let scalar = match kind {
                FieldKind::Delimited(_) => false,
                FieldKind::Varint(VarintKind::Enum(_)) => false,
                _ => true,
            };
            if !scalar {
                return StepAt::Unsafe;
            }
            let block_end = next + value as usize;
            if packed_items_ok(kind, data, next, block_end) {
                StepAt::Next(block_end)
            } else {
                StepAt::Unsafe
            }
        },
    }
}

fn single_after(
    registry: &SchemaRegistry,
    kind: FieldKind,
    data: &[u8],
    pos: usize,
    end: usize,
    depth: usize,
) -> (r: StepAt)
    requires
        registry.wf(),
        pos <= end <= data@.len(),
        kind matches FieldKind::Delimited(DelimitedKind::Message(x))
            ==> registry@.messages.contains(x),
    ensures
        r@ == single_step(registry@, kind, data@, pos as int, end as int, depth as nat),
        r matches StepAt::Next(p) ==> pos <= p <= end,
    decreases end - pos, 0int,
{
    match kind {
        FieldKind::Fixed(k) => {
            let w = width_of(k);
            if end - pos < w {
                StepAt::Next(end)
            } else {
                StepAt::Next(pos + w)
            }
        },
        FieldKind::Varint(k) => match read_varint_at(data, pos, end) {
            ReadAt::Unsafe => StepAt::Unsafe,
            ReadAt::Short => StepAt::Next(end),
            ReadAt::Value { value, next } => if single_value_ok(k, value) {
                StepAt::Next(next)
            } else {
                StepAt::Unsafe
            },
        },
        FieldKind::Delimited(k) => match read_varint_at(data, pos, end) {
            ReadAt::Unsafe => StepAt::Unsafe,
            ReadAt::Short => StepAt::Next(end),
            ReadAt::Value { value, next } => {
                if value > usize::MAX as u64 {
                    return StepAt::Unsafe;
                }
                if value > (end - next) as u64 {
                    return StepAt::Next(end);
                }
                let inner_end = next + value as usize;
                match k {
                    DelimitedKind::Message(x) => if depth > 0 && check_message(
                        registry,
                        x,
                        data,
                        next,
                        inner_end,
                        depth - 1,
                    ) {
                        StepAt::Next(inner_end)
                    } else {
                        StepAt::Unsafe
                    },
                    _ => StepAt::Next(inner_end),
                }
            },
        },
    }
}

fn field_after(
    registry: &SchemaRegistry,
    m: protofish::context::MessageRef,
    tag: u64,
    data: &[u8],
    pos: usize,
    end: usize,
    depth: usize,
) -> (r: StepAt)
    requires
        registry.wf(),
        registry@.messages.contains(m),
        pos <= end <= data@.len(),
    ensures
        r@ == field_step(registry@, m, tag, data@, pos as int, end as int, depth as nat),
        r matches StepAt::Next(p) ==> pos <= p <= end,
    decreases end - pos, 1int,
{
    let number = tag / 8;
    let wire_type = (tag % 8) as u8;
    match registry.field(m, number) {
        Some(f) => if f.packed {
            if wire_type == 2 {
                packed_after(f.kind, data, pos, end)
            } else {
                unknown_after(wire_type, data, pos, end)
            }
        } else if wire_type_of(f.kind) == wire_type {
            single_after(registry, f.kind, data, pos, end, depth)
        } else {
            unknown_after(wire_type, data, pos, end)
        },
        None => unknown_after(wire_type, data, pos, end),
    }
}

/// Decides whether `data[pos..end]` is an input that the decoder can take
/// as a message `m` of the registry, nested messages down to `depth` levels.
pub fn check_message(
    registry: &SchemaRegistry,
    m: protofish::context::MessageRef,
    data: &[u8],
    pos: usize,
    end: usize,
    depth: usize,
) -> (ok: bool)
    requires
        registry.wf(),
        registry@.messages.contains(m),
        pos <= end <= data@.len(),
    ensures
        ok == message_safe(registry@, m, data@, pos as int, end as int, depth as nat),
    decreases end - pos, 2int,
{
    if pos >= end {
        return true;
    }
    match read_varint_at(data, pos, end) {
        ReadAt::Unsafe => false,
        ReadAt::Short => true,
        ReadAt::Value { value, next } => match field_after(
            registry,
            m,
            value,
            data,
            next,
            end,
            depth,
        ) {
            StepAt::Unsafe => false,
            StepAt::Next(after) => check_message(registry, m, data, after, end, depth),
        },
    }
}

/// Finds up to where the fields of message `m` can be read one after the
/// other from `data[pos..end]`.
pub fn find_cut(
    registry: &SchemaRegistry,
    m: protofish::context::MessageRef,
    data: &[u8],
    pos: usize,
    end: usize,
    depth: usize,
) -> (cut: usize)
    requires
        registry.wf(),
        registry@.messages.contains(m),
        pos <= end <= data@.len(),
    ensures
        cut == safe_cut(registry@, m, data@, pos as int, end as int, depth as nat),
        pos <= cut <= end,
{
    let mut at = pos;
    while at < end
        invariant
            registry.wf(),
            registry@.messages.contains(m),
            pos <= at <= end <= data@.len(),
            safe_cut(registry@, m, data@, pos as int, end as int, depth as nat) == safe_cut(
                registry@,
                m,
                data@,
                at as int,
                end as int,
                depth as nat,
            ),
        decreases end - at,
    {
        match read_varint_at(data, at, end) {
            ReadAt::Unsafe => {
                return at;
            },
            ReadAt::Short => {
                return end;
            },
            ReadAt::Value { value, next } => match field_after(
                registry,
                m,
                value,
                data,
                next,
                end,
                depth,
            ) {
                StepAt::Unsafe => {
                    return at;
                },
                StepAt::Next(after) => {
                    at = after;
                },
            },
        }
    }
    at
}

} // verus!
