use csv_query::text::i128_text;
use csv_query::value::{map_value, to_json, type_tag, JsonValue, ScalarValue};

fn text(s: &str) -> JsonValue {
    JsonValue::Text(s.to_string())
}

#[test]
fn null_maps_to_json_null() {
    let (j, t) = map_value(&ScalarValue::Null);
    assert_eq!(j, JsonValue::Null);
    assert_eq!(t, "NULL");
}

#[test]
fn boolean_maps_to_bool() {
    let (j, t) = map_value(&ScalarValue::Boolean(true));
    assert_eq!(j, JsonValue::Bool(true));
    assert_eq!(t, "BOOLEAN");
}

#[test]
fn signed_integers_widen_to_numbers() {
    assert_eq!(to_json(&ScalarValue::TinyInt(-8)), JsonValue::Int(-8));
    assert_eq!(to_json(&ScalarValue::SmallInt(-300)), JsonValue::Int(-300));
    assert_eq!(to_json(&ScalarValue::Int(70000)), JsonValue::Int(70000));
    assert_eq!(to_json(&ScalarValue::BigInt(i64::MIN)), JsonValue::Int(i64::MIN));
    for v in [
        ScalarValue::TinyInt(1),
        ScalarValue::SmallInt(1),
        ScalarValue::Int(1),
        ScalarValue::BigInt(1),
    ] {
        assert_eq!(type_tag(&v), "INTEGER");
    }
}

#[test]
fn unsigned_integers_widen_to_numbers() {
    assert_eq!(to_json(&ScalarValue::UTinyInt(255)), JsonValue::UInt(255));
    assert_eq!(to_json(&ScalarValue::USmallInt(65535)), JsonValue::UInt(65535));
    assert_eq!(to_json(&ScalarValue::UInt(4000000000)), JsonValue::UInt(4000000000));
    assert_eq!(to_json(&ScalarValue::UBigInt(u64::MAX)), JsonValue::UInt(u64::MAX));
    for v in [
        ScalarValue::UTinyInt(1),
        ScalarValue::USmallInt(1),
        ScalarValue::UInt(1),
        ScalarValue::UBigInt(1),
    ] {
        assert_eq!(type_tag(&v), "UINTEGER");
    }
}

#[test]
fn huge_integers_become_exact_decimal_text() {
    let big: i128 = 170141183460469231731687303715884105727;
    let (j, t) = map_value(&ScalarValue::HugeInt(big));
    assert_eq!(j, text("170141183460469231731687303715884105727"));
    assert_eq!(t, "HUGEINT");
    assert_eq!(to_json(&ScalarValue::HugeInt(i128::MIN)), text(&i128::MIN.to_string()));
    assert_eq!(to_json(&ScalarValue::HugeInt(9007199254740993)), text("9007199254740993"));
    assert_eq!(to_json(&ScalarValue::HugeInt(-42)), text("-42"));
    assert_eq!(to_json(&ScalarValue::HugeInt(0)), text("0"));
}

#[test]
fn huge_integer_text_reads_back() {
    for v in [i128::MIN, -9007199254740993, -1, 0, 7, 9007199254740993, i128::MAX] {
        let (j, _) = map_value(&ScalarValue::HugeInt(v));
        match j {
            JsonValue::Text(s) => assert_eq!(s.parse::<i128>().unwrap(), v),
            other => panic!("expected text, got {:?}", other),
        }
    }
}

#[test]
fn floats_keep_their_bits() {
    let f: f32 = 1.5;
    let d: f64 = 9.5;
    let (j, t) = map_value(&ScalarValue::Float(f.to_bits()));
    assert_eq!(j, JsonValue::Float(f.to_bits()));
    assert_eq!(t, "DOUBLE");
    let (j, t) = map_value(&ScalarValue::Double(d.to_bits()));
    assert_eq!(j, JsonValue::Double(d.to_bits()));
    assert_eq!(t, "DOUBLE");
}

#[test]
fn text_maps_to_string() {
    let (j, t) = map_value(&ScalarValue::Text("Alice".to_string()));
    assert_eq!(j, text("Alice"));
    assert_eq!(t, "VARCHAR");
}

#[test]
fn blob_maps_to_length_note() {
    let (j, t) = map_value(&ScalarValue::Blob(vec![0u8, 255, 7]));
    assert_eq!(j, text("[blob: 3 bytes]"));
    assert_eq!(t, "BLOB");
    assert_eq!(to_json(&ScalarValue::Blob(Vec::new())), text("[blob: 0 bytes]"));
    assert_eq!(to_json(&ScalarValue::Blob(vec![1u8; 1234])), text("[blob: 1234 bytes]"));
}

#[test]
fn other_kinds_map_to_their_rendering() {
    let (j, t) = map_value(&ScalarValue::Other("Date32(19000)".to_string()));
    assert_eq!(j, text("Date32(19000)"));
    assert_eq!(t, "UNKNOWN");
}

#[test]
fn decimal_texts() {
    assert_eq!(i128_text(0), "0");
    assert_eq!(i128_text(10), "10");
    assert_eq!(i128_text(-1), "-1");
    assert_eq!(i128_text(1000000), "1000000");
}
