use wrappers::codec::{
    decode, encode, type_oid, Datum, BOOL_OID, CHAR_OID, DATE_OID, FLOAT4_OID, FLOAT8_OID,
    INT2_OID, INT4_OID, INT8_OID, JSONB_OID, TEXT_OID, TIMESTAMP_OID,
};
use wrappers::text::{i64_text, u64_text};
use wrappers::value::Cell;

fn round_trip(v: Cell, oid: u32) {
    assert_eq!(type_oid(&v), oid);
    let raw = encode(&v);
    assert_eq!(decode(&raw, false, oid), Some(v));
}

#[test]
fn codec_round_trips_every_variant() {
    round_trip(Cell::Bool(true), BOOL_OID);
    round_trip(Cell::Bool(false), BOOL_OID);
    round_trip(Cell::I8(-7), CHAR_OID);
    round_trip(Cell::I16(-12345), INT2_OID);
    round_trip(Cell::F32(1.5f32.to_bits()), FLOAT4_OID);
    round_trip(Cell::I32(-100000), INT4_OID);
    round_trip(Cell::F64((-2.25f64).to_bits()), FLOAT8_OID);
    round_trip(Cell::I64(i64::MIN), INT8_OID);
    round_trip(Cell::Text("hello".to_string()), TEXT_OID);
    round_trip(Cell::Date(-1), DATE_OID);
    round_trip(Cell::Timestamp(1234567890), TIMESTAMP_OID);
    round_trip(Cell::Json("{\"a\":1}".to_string()), JSONB_OID);
}

#[test]
fn decode_null_is_none() {
    assert_eq!(decode(&Datum::Word(1), true, BOOL_OID), None);
    assert_eq!(decode(&Datum::Text("x".to_string()), true, TEXT_OID), None);
}

#[test]
fn decode_unknown_type_is_none() {
    assert_eq!(decode(&Datum::Word(1), false, 9999), None);
    assert_eq!(decode(&Datum::Text("x".to_string()), false, 9999), None);
}

#[test]
fn decode_mismatched_form_is_none() {
    // a word where text is declared, and a payload where a word is declared
    assert_eq!(decode(&Datum::Word(1), false, TEXT_OID), None);
    assert_eq!(decode(&Datum::Text("x".to_string()), false, INT8_OID), None);
}

#[test]
fn decode_bool_is_word_nonzero() {
    assert_eq!(decode(&Datum::Word(0), false, BOOL_OID), Some(Cell::Bool(false)));
    assert_eq!(decode(&Datum::Word(2), false, BOOL_OID), Some(Cell::Bool(true)));
}

#[test]
fn unsigned_decimal_text() {
    assert_eq!(u64_text(0), "0");
    assert_eq!(u64_text(9), "9");
    assert_eq!(u64_text(10), "10");
    assert_eq!(u64_text(90210), "90210");
    assert_eq!(u64_text(u64::MAX), "18446744073709551615");
}

#[test]
fn signed_decimal_text() {
    assert_eq!(i64_text(0), "0");
    assert_eq!(i64_text(-1), "-1");
    assert_eq!(i64_text(42), "42");
    assert_eq!(i64_text(i64::MIN), "-9223372036854775808");
    assert_eq!(i64_text(i64::MAX), "9223372036854775807");
}

#[test]
fn literal_text_forms() {
    assert_eq!(Cell::Bool(true).literal_text(), "true");
    assert_eq!(Cell::Bool(false).literal_text(), "false");
    assert_eq!(Cell::I8(-3).literal_text(), "-3");
    assert_eq!(Cell::I16(200).literal_text(), "200");
    assert_eq!(Cell::I32(-1).literal_text(), "-1");
    assert_eq!(Cell::I64(1).literal_text(), "1");
    assert_eq!(Cell::Text("foo".to_string()).literal_text(), "'foo'");
    assert_eq!(Cell::Date(19000).literal_text(), "19000");
    assert_eq!(Cell::Timestamp(-5).literal_text(), "-5");
    assert_eq!(Cell::Json("{}".to_string()).literal_text(), "{}");
}
