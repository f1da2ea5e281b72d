use huruli_fdw::{map_value_to_cell, str_to_i64, str_to_i6Old, Cell, JsonValue, TypeOid};

fn text(s: &str) -> JsonValue {
    JsonValue::String(s.to_string())
}

fn number(integral: Option<i64>, s: &str) -> JsonValue {
    JsonValue::Number { integral, text: s.to_string() }
}

#[test]
fn i64_from_numeric_string() {
    assert_eq!(map_value_to_cell(TypeOid::I64, &text("42")), Some(Cell::I64(42)));
}

#[test]
fn i64_from_integral_float() {
    assert_eq!(map_value_to_cell(TypeOid::I64, &number(Some(42), "42.0")), Some(Cell::I64(42)));
}

#[test]
fn i64_from_fractional_float_is_absent() {
    assert_eq!(map_value_to_cell(TypeOid::I64, &number(None, "42.5")), None);
}

#[test]
fn timestamp_from_seconds_string() {
    assert_eq!(map_value_to_cell(TypeOid::Timestamp, &text("10")), Some(Cell::Timestamp(10000)));
}

#[test]
fn timestamp_overflow_is_absent() {
    let big = number(Some(i64::MAX / 10), "922337203685477580");
    assert_eq!(map_value_to_cell(TypeOid::Timestamp, &big), None);
}

#[test]
fn bool_from_string_is_absent() {
    assert_eq!(map_value_to_cell(TypeOid::Bool, &text("true")), None);
}

#[test]
fn bool_from_bool() {
    assert_eq!(map_value_to_cell(TypeOid::Bool, &JsonValue::Bool(false)), Some(Cell::Bool(false)));
}

#[test]
fn json_object_keeps_its_text() {
    let obj = JsonValue::Object { text: "{\"a\":1}".to_string() };
    assert_eq!(map_value_to_cell(TypeOid::Json, &obj), Some(Cell::Json("{\"a\":1}".to_string())));
}

#[test]
fn json_array_is_absent() {
    let arr = JsonValue::Array { text: "[1,2]".to_string() };
    assert_eq!(map_value_to_cell(TypeOid::Json, &arr), None);
}

#[test]
fn string_from_string_and_number() {
    assert_eq!(map_value_to_cell(TypeOid::String, &text("hi")), Some(Cell::String("hi".to_string())));
    assert_eq!(map_value_to_cell(TypeOid::String, &number(Some(1), "1")), None);
}

#[test]
fn i32_truncates_to_32_bits() {
    assert_eq!(map_value_to_cell(TypeOid::I32, &text("7")), Some(Cell::I32(7)));
    assert_eq!(map_value_to_cell(TypeOid::I32, &number(Some(4294967297), "4294967297")), Some(Cell::I32(1)));
}

#[test]
fn unrecognised_type_is_absent() {
    assert_eq!(map_value_to_cell(TypeOid::Other, &text("1")), None);
    assert_eq!(map_value_to_cell(TypeOid::Other, &JsonValue::Bool(true)), None);
}

#[test]
fn null_and_containers_give_no_integer() {
    assert_eq!(str_to_i64(&JsonValue::Null), None);
    assert_eq!(str_to_i64(&JsonValue::Bool(true)), None);
    assert_eq!(str_to_i64(&JsonValue::Object { text: "{}".to_string() }), None);
}

#[test]
fn string_parsing_accepts_signs_only() {
    assert_eq!(str_to_i64(&text("-17")), Some(-17));
    assert_eq!(str_to_i64(&text("+5")), Some(5));
    assert_eq!(str_to_i64(&text(" 5")), None);
    assert_eq!(str_to_i64(&text("5x")), None);
    assert_eq!(str_to_i64(&text("")), None);
    assert_eq!(str_to_i64(&text("9223372036854775808")), None);
    assert_eq!(str_to_i64(&text("-9223372036854775808")), Some(i64::MIN));
}

#[test]
fn optional_text_parsing() {
    assert_eq!(str_to_i6Old(Some("123")), Some(123));
    assert_eq!(str_to_i6Old(Some("abc")), None);
    assert_eq!(str_to_i6Old(None), None);
}
