use fdb_cli::decode::{
    decode_message, DecodedField, DecodedMessage, DecodedValue, PackedArray, UnknownValue,
};
use fdb_cli::registry::SchemaRegistry;
use fdb_cli::wire::{check_message, find_cut, read_varint_at, ReadAt, MAX_DEPTH};
use protofish::context::{Context, MessageRef};

const SCHEMA: &str = r#"
    syntax = "proto3";
    enum Kind { NONE = 0; SOME = 1; }
    message Leaf { string text = 1; }
    message All {
        double f_double = 1;
        float f_float = 2;
        int32 f_int32 = 3;
        int64 f_int64 = 4;
        uint32 f_uint32 = 5;
        uint64 f_uint64 = 6;
        sint32 f_sint32 = 7;
        sint64 f_sint64 = 8;
        fixed32 f_fixed32 = 9;
        fixed64 f_fixed64 = 10;
        sfixed32 f_sfixed32 = 11;
        sfixed64 f_sfixed64 = 12;
        bool f_bool = 13;
        string f_string = 14;
        bytes f_bytes = 15;
        Kind f_kind = 16;
        Leaf f_leaf = 17;
        All f_all = 18;
        repeated double p_double = 21;
        repeated float p_float = 22;
        repeated int32 p_int32 = 23;
        repeated int64 p_int64 = 24;
        repeated uint32 p_uint32 = 25;
        repeated uint64 p_uint64 = 26;
        repeated sint32 p_sint32 = 27;
        repeated sint64 p_sint64 = 28;
        repeated fixed32 p_fixed32 = 29;
        repeated fixed64 p_fixed64 = 30;
        repeated sfixed32 p_sfixed32 = 31;
        repeated sfixed64 p_sfixed64 = 32;
        repeated bool p_bool = 33;
        repeated string r_string = 34;
        repeated Kind r_kind = 35;
        repeated Leaf r_leaf = 36;
        repeated int32 loose = 37 [packed = false];
    }
"#;

fn registry() -> (SchemaRegistry, MessageRef) {
    let reg = SchemaRegistry::new(Context::parse(&[SCHEMA]).unwrap());
    let m = reg.get_message("All").unwrap();
    (reg, m)
}

fn varint(mut v: u64) -> Vec<u8> {
    let mut out = vec![];
    loop {
        let b = (v & 0x7f) as u8;
        v >>= 7;
        if v == 0 {
            out.push(b);
            return out;
        }
        out.push(b | 0x80);
    }
}

fn tagged(number: u64, wire_type: u64, payload: &[u8]) -> Vec<u8> {
    let mut out = varint(number << 3 | wire_type);
    out.extend_from_slice(payload);
    out
}

fn delimited(number: u64, payload: &[u8]) -> Vec<u8> {
    let mut body = varint(payload.len() as u64);
    body.extend_from_slice(payload);
    tagged(number, 2, &body)
}

fn one_field(bytes: &[u8]) -> Option<DecodedValue> {
    let (reg, m) = registry();
    let mut decoded = decode_message(&reg, m, bytes);
    if decoded.fields.len() == 1 && decoded.garbage.is_none() {
        decoded.fields.pop().map(|f| f.value)
    } else {
        None
    }
}

fn left_whole(bytes: &[u8]) -> bool {
    let (reg, m) = registry();
    decode_message(&reg, m, bytes)
        == DecodedMessage { msg_ref: m, fields: vec![], garbage: Some(bytes.to_vec()) }
}

#[test]
fn varints_are_read_to_their_last_byte() {
    assert!(matches!(read_varint_at(b"\x00", 0, 1), ReadAt::Value { value: 0, next: 1 }));
    assert!(matches!(read_varint_at(b"\x7f\x01", 0, 2), ReadAt::Value { value: 127, next: 1 }));
    assert!(matches!(read_varint_at(b"\xac\x02", 0, 2), ReadAt::Value { value: 300, next: 2 }));
    assert!(matches!(read_varint_at(b"\x09\xac\x02\x07", 1, 4), ReadAt::Value { value: 300, next: 3 }));
    assert!(matches!(
        read_varint_at(b"\xff\xff\xff\xff\xff\xff\xff\xff\xff\x01", 0, 10),
        ReadAt::Value { value: u64::MAX, next: 10 }
    ));
    // of the tenth byte only the lowest bit counts
    assert!(matches!(
        read_varint_at(b"\x80\x80\x80\x80\x80\x80\x80\x80\x80\x7e", 0, 10),
        ReadAt::Value { value: 0, next: 10 }
    ));
    assert!(matches!(read_varint_at(b"", 0, 0), ReadAt::Short));
    assert!(matches!(read_varint_at(b"\x80\x80", 0, 2), ReadAt::Short));
    assert!(matches!(read_varint_at(b"\xac\x02", 0, 1), ReadAt::Short));
    assert!(matches!(
        read_varint_at(b"\x80\x80\x80\x80\x80\x80\x80\x80\x80\x80", 0, 10),
        ReadAt::Short
    ));
    assert!(matches!(
        read_varint_at(b"\x80\x80\x80\x80\x80\x80\x80\x80\x80\x80\x00", 0, 11),
        ReadAt::Unsafe
    ));
}

#[test]
fn limits_of_the_single_fields() {
    // int32
    assert_eq!(one_field(&tagged(3, 0, &varint(i32::MAX as u64))), Some(DecodedValue::Int32(i32::MAX)));
    assert_eq!(one_field(&tagged(3, 0, &varint(i32::MIN as i64 as u64))), Some(DecodedValue::Int32(i32::MIN)));
    assert!(left_whole(&tagged(3, 0, &varint(i32::MAX as u64 + 1))));
    assert!(left_whole(&tagged(3, 0, &varint((i32::MIN as i64 - 1) as u64))));
    // int64
    assert_eq!(one_field(&tagged(4, 0, &varint(u64::MAX))), Some(DecodedValue::Int64(-1)));
    // uint32
    assert_eq!(one_field(&tagged(5, 0, &varint(u32::MAX as u64))), Some(DecodedValue::UInt32(u32::MAX)));
    assert!(left_whole(&tagged(5, 0, &varint(u32::MAX as u64 + 1))));
    // uint64
    assert_eq!(one_field(&tagged(6, 0, &varint(u64::MAX))), Some(DecodedValue::UInt64(u64::MAX)));
    // sint32
    assert_eq!(one_field(&tagged(7, 0, &varint(1))), Some(DecodedValue::SInt32(-1)));
    assert_eq!(one_field(&tagged(7, 0, &varint(u32::MAX as u64 - 1))), Some(DecodedValue::SInt32(i32::MAX)));
    assert!(left_whole(&tagged(7, 0, &varint(u32::MAX as u64))));
    assert!(left_whole(&tagged(7, 0, &varint(u32::MAX as u64 + 1))));
    // sint64
    assert_eq!(one_field(&tagged(8, 0, &varint(u64::MAX - 1))), Some(DecodedValue::SInt64(i64::MAX)));
    assert!(left_whole(&tagged(8, 0, &varint(u64::MAX))));
    // bool, enum
    assert_eq!(one_field(&tagged(13, 0, &varint(2))), Some(DecodedValue::Bool(true)));
    assert_eq!(one_field(&tagged(13, 0, &varint(0))), Some(DecodedValue::Bool(false)));
    assert!(matches!(one_field(&tagged(16, 0, &varint(u64::MAX))), Some(DecodedValue::Enum(e)) if e.value == -1));
    // fixed widths
    assert_eq!(one_field(&tagged(9, 5, &[1, 0, 0, 0])), Some(DecodedValue::Fixed32(1)));
    assert_eq!(one_field(&tagged(12, 1, &[0xff; 8])), Some(DecodedValue::SFixed64(-1)));
    assert_eq!(one_field(&tagged(11, 5, &[0xff; 4])), Some(DecodedValue::SFixed32(-1)));
    assert_eq!(one_field(&tagged(10, 1, &[2, 0, 0, 0, 0, 0, 0, 0])), Some(DecodedValue::Fixed64(2)));
    assert_eq!(one_field(&tagged(9, 5, &[1, 0, 0])), Some(DecodedValue::Incomplete(5, vec![1, 0, 0])));
    // text and bytes
    assert_eq!(one_field(&delimited(14, b"hi")), Some(DecodedValue::String("hi".to_string())));
    assert_eq!(one_field(&delimited(14, &[0xff])), Some(DecodedValue::String("\u{fffd}".to_string())));
    assert_eq!(one_field(&delimited(15, &[0xff, 0])), Some(DecodedValue::Bytes(vec![0xff, 0])));
    assert_eq!(one_field(&delimited(15, &[0x80; 30])), Some(DecodedValue::Bytes(vec![0x80; 30])));
    // a repeated field that is not packed
    assert_eq!(one_field(&tagged(37, 0, &varint(5))), Some(DecodedValue::Int32(5)));
}

#[test]
fn limits_of_the_packed_fields() {
    let packed = |number: u64, items: &[u64]| {
        let body: Vec<u8> = items.iter().flat_map(|v| varint(*v)).collect();
        delimited(number, &body)
    };
    assert_eq!(
        one_field(&packed(23, &[1, u64::MAX, i32::MAX as u64])),
        Some(DecodedValue::Packed(PackedArray::Int32(vec![1, -1, i32::MAX])))
    );
    assert!(left_whole(&packed(23, &[1, i32::MAX as u64 + 1])));
    assert_eq!(
        one_field(&packed(24, &[u64::MAX])),
        Some(DecodedValue::Packed(PackedArray::Int64(vec![-1])))
    );
    assert_eq!(
        one_field(&packed(25, &[u32::MAX as u64])),
        Some(DecodedValue::Packed(PackedArray::UInt32(vec![u32::MAX])))
    );
    assert!(left_whole(&packed(25, &[u32::MAX as u64 + 1])));
    assert_eq!(
        one_field(&packed(26, &[i64::MAX as u64])),
        Some(DecodedValue::Packed(PackedArray::UInt64(vec![i64::MAX as u64])))
    );
    assert!(left_whole(&packed(26, &[i64::MAX as u64 + 1])));
    assert_eq!(
        one_field(&packed(27, &[0, 1, 2, u32::MAX as u64 - 1])),
        Some(DecodedValue::Packed(PackedArray::SInt32(vec![0, -1, 1, i32::MAX])))
    );
    assert!(left_whole(&packed(27, &[u32::MAX as u64])));
    assert_eq!(
        one_field(&packed(28, &[3, i64::MAX as u64])),
        Some(DecodedValue::Packed(PackedArray::SInt64(vec![-2, -(1 << 62)])))
    );
    assert!(left_whole(&packed(28, &[i64::MAX as u64 + 1])));
    assert_eq!(
        one_field(&packed(33, &[0, 1, 255])),
        Some(DecodedValue::Packed(PackedArray::Bool(vec![false, true, true])))
    );
    assert!(left_whole(&packed(33, &[256])));
    assert_eq!(
        one_field(&delimited(29, &[1, 0, 0, 0, 2, 0, 0, 0])),
        Some(DecodedValue::Packed(PackedArray::Fixed32(vec![1, 2])))
    );
    assert_eq!(
        one_field(&delimited(32, &[0xff; 16])),
        Some(DecodedValue::Packed(PackedArray::SFixed64(vec![-1, -1])))
    );
    assert_eq!(
        one_field(&delimited(21, &1.5f64.to_le_bytes())),
        Some(DecodedValue::Packed(PackedArray::Double(vec![1.5f64.to_bits()])))
    );
    assert_eq!(
        one_field(&delimited(22, &0.5f32.to_le_bytes())),
        Some(DecodedValue::Packed(PackedArray::Float(vec![0.5f32.to_bits()])))
    );
    assert_eq!(one_field(&delimited(23, &[])), Some(DecodedValue::Packed(PackedArray::Int32(vec![]))));
    // a block whose last item is cut short
    let cut = delimited(29, &[1, 0, 0, 0, 2, 0]);
    assert!(matches!(one_field(&cut), Some(DecodedValue::Incomplete(2, _))));
    // a packed field sent item by item
    assert!(matches!(one_field(&tagged(23, 0, &varint(5))), Some(DecodedValue::Unknown(_))));
}

#[test]
fn remaining_packed_kinds() {
    assert_eq!(
        one_field(&delimited(31, &[0xfe, 0xff, 0xff, 0xff, 3, 0, 0, 0])),
        Some(DecodedValue::Packed(PackedArray::SFixed32(vec![-2, 3])))
    );
    assert_eq!(
        one_field(&delimited(30, &[9, 0, 0, 0, 0, 0, 0, 0])),
        Some(DecodedValue::Packed(PackedArray::Fixed64(vec![9])))
    );
}

#[test]
fn fields_known_by_their_wire_type_alone() {
    assert_eq!(
        one_field(&tagged(100, 0, &varint(u64::MAX))),
        Some(DecodedValue::Unknown(UnknownValue::Varint(u64::MAX as u128)))
    );
    assert_eq!(
        one_field(&tagged(100, 1, &[1, 0, 0, 0, 0, 0, 0, 0])),
        Some(DecodedValue::Unknown(UnknownValue::Fixed64(1)))
    );
    assert_eq!(
        one_field(&tagged(100, 5, &[2, 0, 0, 0])),
        Some(DecodedValue::Unknown(UnknownValue::Fixed32(2)))
    );
    assert_eq!(
        one_field(&delimited(100, b"raw")),
        Some(DecodedValue::Unknown(UnknownValue::VariableLength(b"raw".to_vec())))
    );
    assert_eq!(
        one_field(&tagged(100, 3, &[7, 8, 9])),
        Some(DecodedValue::Unknown(UnknownValue::Invalid(3, vec![7, 8, 9])))
    );
    // a declared field sent with another wire type
    assert_eq!(
        one_field(&tagged(14, 5, &[2, 0, 0, 0])),
        Some(DecodedValue::Unknown(UnknownValue::Fixed32(2)))
    );
    // cut short, the bytes after the tag are read on as fields
    let (reg, m) = registry();
    let decoded = decode_message(&reg, m, &tagged(100, 1, &[0x18, 0x05]));
    assert_eq!(
        decoded.fields,
        vec![
            DecodedField { number: 100, value: DecodedValue::Incomplete(1, vec![0x18, 0x05]) },
            DecodedField { number: 3, value: DecodedValue::Int32(5) },
        ]
    );
}

#[test]
fn fields_before_the_first_unsafe_one_are_decoded() {
    let (reg, m) = registry();
    let mut bytes = tagged(3, 0, &varint(7));
    bytes.extend(delimited(14, b"ok"));
    let good = bytes.len();
    bytes.extend(tagged(5, 0, &varint(u32::MAX as u64 + 1)));
    bytes.extend(tagged(3, 0, &varint(9)));
    assert_eq!(find_cut(&reg, m, &bytes, 0, bytes.len(), MAX_DEPTH), good);
    let decoded = decode_message(&reg, m, &bytes);
    assert_eq!(
        decoded.fields,
        vec![
            DecodedField { number: 3, value: DecodedValue::Int32(7) },
            DecodedField { number: 14, value: DecodedValue::String("ok".to_string()) },
        ]
    );
    assert_eq!(decoded.garbage, Some(bytes[good..].to_vec()));
    // an unsafe field within a nested message leaves the whole nested field
    let mut outer = tagged(3, 0, &varint(1));
    let cut = outer.len();
    outer.extend(delimited(18, &tagged(5, 0, &varint(u32::MAX as u64 + 1))));
    let decoded = decode_message(&reg, m, &outer);
    assert_eq!(decoded.fields, vec![DecodedField { number: 3, value: DecodedValue::Int32(1) }]);
    assert_eq!(decoded.garbage, Some(outer[cut..].to_vec()));
    // nothing is cut from what is safe
    let safe = tagged(3, 0, &varint(1));
    assert_eq!(find_cut(&reg, m, &safe, 0, safe.len(), MAX_DEPTH), safe.len());
    assert_eq!(find_cut(&reg, m, b"", 0, 0, MAX_DEPTH), 0);
    assert_eq!(find_cut(&reg, m, b"\x80", 0, 1, MAX_DEPTH), 1);
}

fn nested(levels: usize) -> Vec<u8> {
    let mut bytes = tagged(3, 0, &varint(7));
    for _ in 0..levels {
        bytes = delimited(18, &bytes);
    }
    bytes
}

fn depth_of(message: &DecodedMessage) -> usize {
    match message.fields.first() {
        Some(DecodedField { value: DecodedValue::Message(inner), .. }) => 1 + depth_of(inner),
        _ => 0,
    }
}

#[test]
fn nesting_is_followed_to_the_limit() {
    let (reg, m) = registry();
    assert_eq!(MAX_DEPTH, 100);
    let deepest = nested(MAX_DEPTH);
    assert!(check_message(&reg, m, &deepest, 0, deepest.len(), MAX_DEPTH));
    assert_eq!(depth_of(&decode_message(&reg, m, &deepest)), MAX_DEPTH);
    let too_deep = nested(MAX_DEPTH + 1);
    assert!(!check_message(&reg, m, &too_deep, 0, too_deep.len(), MAX_DEPTH));
    assert!(left_whole(&too_deep));
    assert!(check_message(&reg, m, &nested(1), 0, nested(1).len(), 1));
    assert!(!check_message(&reg, m, &nested(1), 0, nested(1).len(), 0));
}

struct Lcg(u64);

impl Lcg {
    fn next(&mut self) -> u64 {
        self.0 = self.0.wrapping_mul(6364136223846793005).wrapping_add(1442695040888963407);
        self.0 >> 33
    }

    fn below(&mut self, n: u64) -> u64 {
        self.next() % n
    }
}

fn random_number(rng: &mut Lcg) -> u64 {
    match rng.below(8) {
        0 => rng.below(4),
        1 => 0x7fff_fffe + rng.below(4),
        2 => 0xffff_fffd + rng.below(4),
        3 => 0x7fff_ffff_ffff_fffe + rng.below(4),
        4 => 0xffff_ffff_7fff_fffe + rng.below(4),
        5 => u64::MAX - rng.below(3),
        6 => 254 + rng.below(4),
        _ => (rng.next() << 31) ^ rng.next(),
    }
}

fn random_payload(rng: &mut Lcg, budget: usize) -> Vec<u8> {
    let len = rng.below(budget as u64 + 1) as usize;
    match rng.below(4) {
        0 => (0..len).map(|_| rng.next() as u8).collect(),
        1 => {
            let mut out = vec![];
            while out.len() < len {
                out.extend(varint(random_number(rng)));
            }
            out
        }
        2 => random_message(rng, len),
        _ => vec![0x80 | rng.next() as u8; len],
    }
}

fn random_message(rng: &mut Lcg, budget: usize) -> Vec<u8> {
    let mut out = vec![];
    while out.len() < budget {
        let number = 1 + rng.below(40);
        let wire_type = match rng.below(6) {
            0 => 0,
            1 => 1,
            2 | 3 => 2,
            4 => 5,
            _ => rng.below(8),
        };
        out.extend(varint(number << 3 | wire_type));
        match rng.below(10) {
            0 => {}
            1 => out.extend(vec![0x80 | rng.next() as u8; rng.below(12) as usize]),
            _ => match wire_type {
                0 => out.extend(varint(random_number(rng))),
                1 => out.extend((0..8).map(|_| rng.next() as u8)),
                5 => out.extend((0..4).map(|_| rng.next() as u8)),
                _ => {
                    let payload = random_payload(rng, budget / 2);
                    let shown = match rng.below(8) {
                        0 => payload.len() as u64 + 1 + rng.below(3),
                        1 => random_number(rng),
                        _ => payload.len() as u64,
                    };
                    out.extend(varint(shown));
                    out.extend(payload);
                }
            },
        }
    }
    if rng.below(4) == 0 {
        out.truncate(rng.below(out.len() as u64 + 1) as usize);
    }
    out
}

#[test]
fn what_is_found_safe_decodes() {
    let (reg, m) = registry();
    let mut rng = Lcg(0xfeed_face);
    let mut safe = 0;
    let mut unsafe_found = 0;
    for round in 0..40000 {
        let bytes = random_message(&mut rng, 4 + round % 60);
        let ok = check_message(&reg, m, &bytes, 0, bytes.len(), MAX_DEPTH);
        let decoded = decode_message(&reg, m, &bytes);
        assert_eq!(decoded.msg_ref, m);
        let cut = find_cut(&reg, m, &bytes, 0, bytes.len(), MAX_DEPTH);
        if ok {
            safe += 1;
            assert_eq!(cut, bytes.len());
        } else {
            unsafe_found += 1;
            assert!(cut < bytes.len());
            assert!(check_message(&reg, m, &bytes[..cut], 0, cut, MAX_DEPTH));
            let head = decode_message(&reg, m, &bytes[..cut]);
            assert_eq!(decoded.fields, head.fields);
            let mut left = head.garbage.unwrap_or_default();
            left.extend_from_slice(&bytes[cut..]);
            assert_eq!(decoded.garbage, Some(left));
        }
    }
    assert!(safe > 2000, "{}", safe);
    assert!(unsafe_found > 2000, "{}", unsafe_found);
}
