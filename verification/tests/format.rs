use fdb_cli::convert::{convert, convert_message, convert_packed};
use fdb_cli::decode::{decode_message, DecodedValue, EnumValue, PackedArray, UnknownValue};
use fdb_cli::document::{Document, Member};
use fdb_cli::error::Error;
use fdb_cli::text::decimal_text;
use fdb_cli::format::{format_kv, format_pairs, format_value, render, Formatted, Record};
use fdb_cli::json::{items_to_json, members_to_json, pretty, to_json};
use fdb_cli::registry::SchemaRegistry;
use protofish::context::Context;

const SCHEMA: &str = r#"
    syntax = "proto3";
    enum Color { RED = 0; GREEN = 1; }
    message Inner { string label = 1; Color shade = 2; }
    message Person {
        string name = 1;
        int32 age = 2;
        repeated int32 scores = 3;
        Inner inner = 4;
        Color color = 5;
        bytes raw = 6;
        repeated double ratios = 7;
        uint64 big = 8;
        repeated string tags = 9;
    }
"#;

fn schema_registry() -> Option<SchemaRegistry> {
    Some(SchemaRegistry::new(Context::parse(&[SCHEMA]).unwrap()))
}

fn member(name: &str, value: Document) -> Member {
    Member { name: name.to_string(), value }
}

fn text(s: &str) -> Document {
    Document::String(s.to_string())
}

fn fields_of(bytes: &[u8]) -> Vec<Member> {
    let reg = schema_registry().unwrap();
    let m = reg.get_message("Person").unwrap();
    let decoded = decode_message(&reg, m, bytes);
    convert_message(&reg, &decoded)
}

#[test]
fn person_record() {
    let reg = schema_registry();
    let m = reg.as_ref().unwrap().get_message("Person");
    assert!(m.is_some());
    let shown = format_value(&reg, m, b"p1".to_vec(), b"\x0a\x03Ada\x10\x24".to_vec()).unwrap();
    assert_eq!(
        shown,
        Formatted::Record(Record {
            key: "p1".to_string(),
            fields: vec![member("name", text("Ada")), member("age", Document::Int(36))],
        })
    );
    let printed = format_kv(&reg, m, b"p1".to_vec(), b"\x0a\x03Ada\x10\x24".to_vec()).unwrap();
    assert_eq!(
        printed,
        "{\n  \"key\": \"p1\",\n  \"fields\": {\n    \"name\": \"Ada\",\n    \"age\": 36\n  }\n}"
    );
    let parsed: serde_json::Value = serde_json::from_str(&printed).unwrap();
    assert_eq!(parsed["key"], serde_json::Value::from("p1"));
    assert_eq!(parsed["fields"]["name"], serde_json::Value::from("Ada"));
    assert_eq!(parsed["fields"]["age"], serde_json::Value::from(36));
}

#[test]
fn fields_keep_wire_order() {
    assert_eq!(
        fields_of(b"\x10\x24\x0a\x03Ada"),
        vec![member("age", Document::Int(36)), member("name", text("Ada"))]
    );
}

#[test]
fn text_without_schema_is_the_same_text() {
    let shown = format_value(&None, None, "clé".as_bytes().to_vec(), "värde ✓".as_bytes().to_vec());
    match shown {
        Ok(Formatted::Text(s)) => {
            assert_eq!(s, "värde ✓");
            assert_eq!(s.as_bytes(), "värde ✓".as_bytes());
        }
        other => panic!("unexpected: {:?}", other),
    }
    let printed = format_kv(&None, None, "clé".as_bytes().to_vec(), "värde ✓".as_bytes().to_vec());
    assert_eq!(printed.ok(), Some("värde ✓".to_string()));
    let quoted = format_kv(&None, None, b"k".to_vec(), b"{\"a\": 1}".to_vec());
    assert_eq!(quoted.ok(), Some("{\"a\": 1}".to_string()));
    let empty = format_kv(&None, None, Vec::new(), Vec::new());
    assert_eq!(empty.ok(), Some(String::new()));
}

#[test]
fn invalid_text_is_an_error() {
    let bad_value = format_kv(&None, None, b"k".to_vec(), vec![0x66, 0xff, 0x6f]);
    assert!(matches!(bad_value, Err(Error::StringDecodeError(_))));
    let bad_key = format_kv(&None, None, vec![0xc3, 0x28], b"v".to_vec());
    assert!(matches!(bad_key, Err(Error::StringDecodeError(_))));
    let reg = schema_registry();
    let m = reg.as_ref().unwrap().get_message("Person");
    let bad_key_with_schema = format_kv(&reg, m, vec![0x80], b"\x10\x24".to_vec());
    assert!(matches!(bad_key_with_schema, Err(Error::StringDecodeError(_))));
}

#[test]
fn packed_numbers_become_a_list_in_order() {
    assert_eq!(
        fields_of(b"\x1a\x03\x01\x02\x03"),
        vec![member(
            "scores",
            Document::Array(vec![Document::Int(1), Document::Int(2), Document::Int(3)])
        )]
    );
    assert_eq!(
        convert_packed(&PackedArray::UInt64(vec![7, 0, u64::MAX])),
        Document::Array(vec![Document::UInt(7), Document::UInt(0), Document::UInt(u64::MAX)])
    );
    assert_eq!(
        convert_packed(&PackedArray::Bool(vec![true, false])),
        Document::Array(vec![Document::Bool(true), Document::Bool(false)])
    );
    assert_eq!(
        convert_packed(&PackedArray::Double(vec![1.5f64.to_bits()])),
        Document::Array(vec![Document::Double(1.5f64.to_bits())])
    );
    assert_eq!(
        convert_packed(&PackedArray::Float(vec![0.5f32.to_bits(), 2.0f32.to_bits()])),
        Document::Array(vec![
            Document::Float(0.5f32.to_bits()),
            Document::Float(2.0f32.to_bits())
        ])
    );
    assert_eq!(convert_packed(&PackedArray::SInt32(vec![])), Document::Array(vec![]));
}

#[test]
fn bytes_become_a_list_of_numbers() {
    assert_eq!(
        fields_of(b"\x32\x03\x00\x7f\xff"),
        vec![member(
            "raw",
            Document::Array(vec![Document::UInt(0), Document::UInt(127), Document::UInt(255)])
        )]
    );
}

#[test]
fn nested_message_and_enum_symbols() {
    assert_eq!(
        fields_of(b"\x22\x06\x0a\x02hi\x10\x01\x28\x00"),
        vec![
            member(
                "inner",
                Document::Object(vec![member("label", text("hi")), member("shade", text("GREEN"))])
            ),
            member("color", text("RED")),
        ]
    );
}

#[test]
fn enum_number_without_symbol_is_shown_as_the_number() {
    assert_eq!(fields_of(b"\x28\x07"), vec![member("color", Document::Int(7))]);
    assert_eq!(
        fields_of(b"\x28\xff\xff\xff\xff\xff\xff\xff\xff\xff\x01"),
        vec![member("color", Document::Int(-1))]
    );
    let reg = schema_registry();
    let m = reg.as_ref().unwrap().get_message("Person");
    let shown = format_kv(&reg, m, b"k".to_vec(), b"\x28\x07".to_vec());
    assert_eq!(
        shown.ok(),
        Some("{\n  \"key\": \"k\",\n  \"fields\": {\n    \"color\": 7\n  }\n}".to_string())
    );
}

#[test]
fn undeclared_field_is_shown_under_its_number() {
    assert_eq!(
        fields_of(b"\x10\x01\xa0\x06\x01"),
        vec![member("age", Document::Int(1)), member("100", text("UNKNOWN: Varint(1)"))]
    );
    assert_eq!(
        fields_of(b"\xa2\x06\x03xyz\x10\x01"),
        vec![
            member("100", text("UNKNOWN: VariableLength(b\"xyz\")")),
            member("age", Document::Int(1)),
        ]
    );
    // the known fields are as without it
    assert_eq!(fields_of(b"\x10\x01"), vec![member("age", Document::Int(1))]);
    // cut short
    assert_eq!(
        fields_of(b"\xa2\x06\x05xy"),
        vec![
            member("100", text("INCOMPLETE: \u{5}xy")),
            member("0", text("INCOMPLETE: xy")),
            member("15", text("UNKNOWN: Varint(121)")),
        ]
    );
    let reg = schema_registry();
    let m = reg.as_ref().unwrap().get_message("Person");
    let shown = format_kv(&reg, m, b"k".to_vec(), b"\x0a\x03Ada\xa0\x06\x01".to_vec()).unwrap();
    let parsed: serde_json::Value = serde_json::from_str(&shown).unwrap();
    assert_eq!(parsed["fields"]["name"], serde_json::Value::from("Ada"));
    assert_eq!(parsed["fields"]["100"], serde_json::Value::from("UNKNOWN: Varint(1)"));
}

#[test]
fn numbers_in_decimal() {
    assert_eq!(decimal_text(0), "0");
    assert_eq!(decimal_text(7), "7");
    assert_eq!(decimal_text(10), "10");
    assert_eq!(decimal_text(100), "100");
    assert_eq!(decimal_text(1234567890), "1234567890");
    assert_eq!(decimal_text(u64::MAX), "18446744073709551615");
}

#[test]
fn unknown_and_incomplete_are_shown_as_tagged_text() {
    assert_eq!(fields_of(b"\x08\x05"), vec![member("name", text("UNKNOWN: Varint(5)"))]);
    assert_eq!(
        fields_of(b"\x10\x24\x0a\x05Ad"),
        vec![member("age", Document::Int(36)), member("name", text("INCOMPLETE: \u{5}Ad"))]
    );
    let reg = schema_registry().unwrap();
    assert_eq!(
        convert(&reg, &DecodedValue::Incomplete(2, vec![0x41, 0xff])),
        text("INCOMPLETE: A\u{fffd}")
    );
    assert_eq!(
        convert(&reg, &DecodedValue::Unknown(UnknownValue::VariableLength(b"ab".to_vec()))),
        text("UNKNOWN: VariableLength(b\"ab\")")
    );
    assert_eq!(
        convert(&reg, &DecodedValue::Unknown(UnknownValue::Fixed32(9))),
        text("UNKNOWN: Fixed32(9)")
    );
    assert_eq!(
        convert(&reg, &DecodedValue::Unknown(UnknownValue::Fixed64(9))),
        text("UNKNOWN: Fixed64(9)")
    );
    assert_eq!(
        convert(&reg, &DecodedValue::Unknown(UnknownValue::Invalid(3, vec![1]))),
        text("UNKNOWN: Invalid(3, b\"\\x01\")")
    );
}

#[test]
fn repeated_field_keeps_every_value_in_wire_order() {
    assert_eq!(
        fields_of(b"\x0a\x01a\x10\x01\x0a\x01b"),
        vec![
            member("name", Document::Array(vec![text("a"), text("b")])),
            member("age", Document::Int(1)),
        ]
    );
    assert_eq!(
        fields_of(b"\x4a\x01x\x10\x05\x4a\x01y\x4a\x01z"),
        vec![
            member("tags", Document::Array(vec![text("x"), text("y"), text("z")])),
            member("age", Document::Int(5)),
        ]
    );
    // one occurrence is the value itself
    assert_eq!(fields_of(b"\x4a\x01x"), vec![member("tags", text("x"))]);
    // a packed field sent in two blocks keeps both
    assert_eq!(
        fields_of(b"\x1a\x02\x01\x02\x1a\x01\x03"),
        vec![member(
            "scores",
            Document::Array(vec![
                Document::Array(vec![Document::Int(1), Document::Int(2)]),
                Document::Array(vec![Document::Int(3)]),
            ])
        )]
    );
    let reg = schema_registry();
    let m = reg.as_ref().unwrap().get_message("Person");
    let shown = format_kv(&reg, m, b"k".to_vec(), b"\x4a\x01x\x4a\x01y".to_vec()).unwrap();
    assert_eq!(
        shown,
        "{\n  \"key\": \"k\",\n  \"fields\": {\n    \"tags\": [\n      \"x\",\n      \"y\"\n    ]\n  }\n}"
    );
}

#[test]
fn scalars_become_numbers_text_and_truth_values() {
    let reg = schema_registry().unwrap();
    assert_eq!(convert(&reg, &DecodedValue::Int32(-5)), Document::Int(-5));
    assert_eq!(convert(&reg, &DecodedValue::SInt64(i64::MIN)), Document::Int(i64::MIN));
    assert_eq!(convert(&reg, &DecodedValue::UInt32(7)), Document::UInt(7));
    assert_eq!(convert(&reg, &DecodedValue::Fixed64(u64::MAX)), Document::UInt(u64::MAX));
    assert_eq!(convert(&reg, &DecodedValue::SFixed32(-1)), Document::Int(-1));
    assert_eq!(convert(&reg, &DecodedValue::Bool(true)), Document::Bool(true));
    assert_eq!(
        convert(&reg, &DecodedValue::Double(2.5f64.to_bits())),
        Document::Double(2.5f64.to_bits())
    );
    assert_eq!(
        convert(&reg, &DecodedValue::Float(2.5f32.to_bits())),
        Document::Float(2.5f32.to_bits())
    );
    assert_eq!(convert(&reg, &DecodedValue::String("s".to_string())), text("s"));
    assert_eq!(
        fields_of(b"\x40\xff\xff\xff\xff\xff\xff\xff\xff\xff\x01"),
        vec![member("big", Document::UInt(u64::MAX))]
    );
}

#[test]
fn enum_value_converts_through_its_reference() {
    let reg = schema_registry().unwrap();
    let m = reg.get_message("Person").unwrap();
    let decoded = decode_message(&reg, m, b"\x28\x01");
    match &decoded.fields[0].value {
        DecodedValue::Enum(EnumValue { enum_ref, value }) => {
            assert_eq!(*value, 1);
            let again = DecodedValue::Enum(EnumValue { enum_ref: *enum_ref, value: 0 });
            assert_eq!(convert(&reg, &again), text("RED"));
            let open = DecodedValue::Enum(EnumValue { enum_ref: *enum_ref, value: 9 });
            assert_eq!(convert(&reg, &open), Document::Int(9));
        }
        other => panic!("unexpected: {:?}", other),
    }
}

#[test]
fn input_that_cannot_be_decoded_is_shown_as_incomplete() {
    assert_eq!(
        fields_of(b"\x10\x80\x80\x80\x80\x80\x80\x80\x80\x80\x80\x01"),
        vec![member(
            "0",
            text("INCOMPLETE: \u{10}\u{fffd}\u{fffd}\u{fffd}\u{fffd}\u{fffd}\u{fffd}\u{fffd}\u{fffd}\u{fffd}\u{fffd}\u{1}")
        )]
    );
    // the fields before the one that cannot be decoded are shown
    assert_eq!(
        fields_of(b"\x10\x24\x0a\x03Ada\x10\x80\x80\x80\x80\x80\x80\x80\x80\x80\x80\x01"),
        vec![
            member("age", Document::Int(36)),
            member("name", text("Ada")),
            member(
                "0",
                text("INCOMPLETE: \u{10}\u{fffd}\u{fffd}\u{fffd}\u{fffd}\u{fffd}\u{fffd}\u{fffd}\u{fffd}\u{fffd}\u{fffd}\u{1}")
            ),
        ]
    );
    // what is left where the input ends within a tag
    assert_eq!(
        fields_of(b"\x10\x24\x80"),
        vec![member("age", Document::Int(36)), member("0", text("INCOMPLETE: \u{fffd}"))]
    );
    assert_eq!(fields_of(b""), vec![]);
}

#[test]
fn any_value_is_shown_with_a_schema() {
    let reg = schema_registry();
    let m = reg.as_ref().unwrap().get_message("Person");
    let mut seed: u64 = 0x9e37_79b9;
    for round in 0..20000u64 {
        let mut bytes = vec![];
        for _ in 0..(round % 24) {
            seed = seed.wrapping_mul(6364136223846793005).wrapping_add(1442695040888963407);
            bytes.push(match (seed >> 40) % 4 {
                0 => (((seed >> 33) % 12) << 3 | ((seed >> 50) % 8)) as u8,
                1 => ((seed >> 33) % 6) as u8,
                _ => (seed >> 33) as u8,
            });
        }
        let shown = format_kv(&reg, m, b"k".to_vec(), bytes).unwrap();
        let parsed: serde_json::Value = serde_json::from_str(&shown).unwrap();
        assert!(parsed["fields"].is_object());
        assert_eq!(parsed["key"], serde_json::Value::from("k"));
    }
}

#[test]
fn registry_lookups() {
    let reg = schema_registry().unwrap();
    let m = reg.get_message("Person").unwrap();
    assert!(reg.get_message("Nobody").is_none());
    assert!(reg.get_message("Color").is_none());
    assert_eq!(reg.field_name(m, 2), Some("age".to_string()));
    assert_eq!(reg.field_name(m, 99), None);
    let scores = reg.field(m, 3).unwrap();
    assert_eq!(scores.name, "scores");
    assert!(scores.packed);
    let name = reg.field(m, 1).unwrap();
    assert!(!name.packed);
    assert!(reg.field(m, 0).is_none());
}

#[test]
fn documents_are_written_as_json() {
    assert_eq!(to_json(&Document::Null), serde_json::Value::Null);
    assert_eq!(to_json(&Document::Bool(true)), serde_json::Value::Bool(true));
    assert_eq!(to_json(&Document::Int(-7)), serde_json::Value::from(-7i64));
    assert_eq!(to_json(&Document::Int(7)), serde_json::Value::from(7u64));
    assert_eq!(to_json(&Document::UInt(u64::MAX)), serde_json::Value::from(u64::MAX));
    assert_eq!(to_json(&Document::Double(1.5f64.to_bits())), serde_json::Value::from(1.5f64));
    assert_eq!(to_json(&Document::Double((-0.1f64).to_bits())), serde_json::Value::from(-0.1f64));
    assert_eq!(to_json(&Document::Float(0.25f32.to_bits())), serde_json::Value::from(0.25f32));
    assert_eq!(to_json(&text("a\"b")), serde_json::Value::from("a\"b"));
    assert_eq!(pretty(&to_json(&Document::Double(1.5f64.to_bits()))), "1.5");
    assert_eq!(pretty(&to_json(&Document::Float(0.5f32.to_bits()))), "0.5");
    assert_eq!(pretty(&to_json(&Document::UInt(u64::MAX))), "18446744073709551615");
    assert_eq!(pretty(&to_json(&Document::Int(i64::MIN))), "-9223372036854775808");
    assert_eq!(pretty(&to_json(&text("a\"b\n"))), "\"a\\\"b\\n\"");
}

#[test]
fn reals_that_json_cannot_write_become_null() {
    assert_eq!(to_json(&Document::Double(f64::NAN.to_bits())), serde_json::Value::Null);
    assert_eq!(to_json(&Document::Double(f64::INFINITY.to_bits())), serde_json::Value::Null);
    assert_eq!(to_json(&Document::Double(f64::NEG_INFINITY.to_bits())), serde_json::Value::Null);
    assert_eq!(to_json(&Document::Float(f32::NAN.to_bits())), serde_json::Value::Null);
    assert_eq!(to_json(&Document::Float(f32::INFINITY.to_bits())), serde_json::Value::Null);
    assert_eq!(to_json(&Document::Double(f64::MAX.to_bits())), serde_json::Value::from(f64::MAX));
    assert_eq!(to_json(&Document::Float(f32::MIN.to_bits())), serde_json::Value::from(f32::MIN));
    assert_eq!(to_json(&Document::Double(0)), serde_json::Value::from(0.0f64));
    // the smallest bits with a full exponent, and the largest without
    assert_eq!(to_json(&Document::Double(0x7ff0_0000_0000_0000)), serde_json::Value::Null);
    assert!(to_json(&Document::Double(0x7fef_ffff_ffff_ffff)).is_number());
    assert_eq!(to_json(&Document::Double(0xfff0_0000_0000_0000)), serde_json::Value::Null);
    assert!(to_json(&Document::Double(0xffef_ffff_ffff_ffff)).is_number());
    assert_eq!(to_json(&Document::Float(0x7f80_0000)), serde_json::Value::Null);
    assert!(to_json(&Document::Float(0x7f7f_ffff)).is_number());
    assert_eq!(to_json(&Document::Float(0xff80_0000)), serde_json::Value::Null);
    assert!(to_json(&Document::Float(0xff7f_ffff)).is_number());
}

#[test]
fn single_precision_is_written_widened() {
    let tenth = 0.1f32;
    assert_eq!(to_json(&Document::Float(tenth.to_bits())), serde_json::Value::from(tenth));
    assert_eq!(
        to_json(&Document::Float(tenth.to_bits())),
        to_json(&Document::Double((tenth as f64).to_bits()))
    );
    assert_eq!(pretty(&to_json(&Document::Float(tenth.to_bits()))), "0.10000000149011612");
    assert_eq!(
        to_json(&Document::Float(1.5f32.to_bits())),
        to_json(&Document::Double(1.5f64.to_bits()))
    );
    assert_eq!(pretty(&to_json(&Document::Float((-0.0f32).to_bits()))), "-0.0");
}

#[test]
fn lists_and_objects_are_written_in_order() {
    let list = Document::Array(vec![Document::Int(1), text("two"), Document::Array(vec![])]);
    assert_eq!(pretty(&to_json(&list)), "[\n  1,\n  \"two\",\n  []\n]");
    assert_eq!(items_to_json(&vec![Document::Null, Document::Bool(false)]).len(), 2);
    let object = Document::Object(vec![
        member("zeta", Document::Int(1)),
        member("alpha", Document::Object(vec![member("inner", Document::Null)])),
    ]);
    assert_eq!(
        pretty(&to_json(&object)),
        "{\n  \"zeta\": 1,\n  \"alpha\": {\n    \"inner\": null\n  }\n}"
    );
    assert_eq!(pretty(&to_json(&Document::Object(vec![]))), "{}");
}

#[test]
fn a_name_given_twice_is_written_once() {
    let members = vec![
        member("a", Document::Int(1)),
        member("b", Document::Int(2)),
        member("a", Document::Int(3)),
    ];
    assert_eq!(pretty(&members_to_json(&members)), "{\n  \"a\": 3,\n  \"b\": 2\n}");
}

#[test]
fn render_prints_text_as_it_is() {
    assert_eq!(render(Formatted::Text("plain \"text\"".to_string())), "plain \"text\"");
    assert_eq!(
        render(Formatted::Record(Record { key: "k".to_string(), fields: vec![] })),
        "{\n  \"key\": \"k\",\n  \"fields\": {}\n}"
    );
    assert_eq!(
        render(Formatted::Record(Record {
            key: "fields".to_string(),
            fields: vec![member("key", Document::Double(f64::NAN.to_bits()))],
        })),
        "{\n  \"key\": \"fields\",\n  \"fields\": {\n    \"key\": null\n  }\n}"
    );
}

#[test]
fn pairs_are_shown_up_to_the_first_failure() {
    let reg = schema_registry();
    let m = reg.as_ref().unwrap().get_message("Person");
    let pairs = vec![
        (b"a".to_vec(), b"\x10\x01".to_vec()),
        (b"b".to_vec(), b"\x10\x02".to_vec()),
        (vec![0xff], b"\x10\x03".to_vec()),
        (b"d".to_vec(), b"\x10\x04".to_vec()),
    ];
    let (shown, failure) = format_pairs(&reg, m, &pairs);
    assert_eq!(
        shown,
        vec![
            "{\n  \"key\": \"a\",\n  \"fields\": {\n    \"age\": 1\n  }\n}".to_string(),
            "{\n  \"key\": \"b\",\n  \"fields\": {\n    \"age\": 2\n  }\n}".to_string(),
        ]
    );
    assert!(matches!(failure, Some(Error::StringDecodeError(_))));
    let (shown, failure) = format_pairs(&None, None, &pairs[..2].to_vec());
    assert_eq!(shown, vec!["\u{10}\u{1}".to_string(), "\u{10}\u{2}".to_string()]);
    assert!(failure.is_none());
    let (shown, failure) = format_pairs(&None, None, &vec![]);
    assert!(shown.is_empty() && failure.is_none());
    let (shown, failure) = format_pairs(&None, None, &vec![(vec![0xff], vec![])]);
    assert!(shown.is_empty());
    assert!(matches!(failure, Some(Error::StringDecodeError(_))));
    // with a message type, no value fails
    let (shown, failure) = format_pairs(&reg, m, &vec![(b"k".to_vec(), vec![0xff, 0xff])]);
    assert_eq!(shown.len(), 1);
    assert!(failure.is_none());
}
