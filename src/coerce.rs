use vstd::prelude::*;

use crate::json::JsonValue;

verus! {

/// The declared type of a target column.
#[derive(Debug, Clone, Copy, PartialEq, Eq)]
pub enum TypeOid {
    Bool,
    String,
    I32,
    I64,
    Timestamp,
    Json,
    /// Any type tag that the adapter does not recognise.
    Other,
}

/// A typed storage cell. A timestamp counts milliseconds since the epoch.
#[derive(Debug, Clone, PartialEq, Eq)]
pub enum Cell {
    Bool(bool),
    String(String),
    I32(i32),
    I64(i64),
    Timestamp(i64),
    Json(String),
}

pub open spec fn is_digit(c: char) -> bool {
    '0' <= c && c <= '9'
}

/// The value of a sequence of decimal digits.
pub open spec fn digits_value(s: Seq<char>) -> int
    decreases s.len(),
{
    if s.len() == 0 {
        0
    } else {
        10 * digits_value(s.drop_last()) + (s.last() as int - '0' as int)
    }
}

pub open spec fn all_digits(s: Seq<char>) -> bool {
    s.len() > 0 && forall|i: int| 0 <= i < s.len() ==> is_digit(#[trigger] s[i])
}

/// A base-10 signed integer: an optional `+` or `-` followed by one or
/// more digits, and nothing else.
pub open spec fn decimal_value(s: Seq<char>) -> Option<int> {
    if s.len() > 0 && s[0] == '-' && all_digits(s.skip(1)) {
        Some(-digits_value(s.skip(1)))
    } else if s.len() > 0 && s[0] == '+' && all_digits(s.skip(1)) {
        Some(digits_value(s.skip(1)))
    } else if all_digits(s) {
        Some(digits_value(s))
    } else {
        None
    }
}

/// The text read as a base-10 `i64`; absent when it is no such integer or
/// does not fit.
pub open spec fn parse_i64_spec(s: Seq<char>) -> Option<i64> {
    match decimal_value(s) {
        Some(v) => if i64::MIN <= v <= i64::MAX {
            Some(v as i64)
        } else {
            None
        },
        None => None,
    }
}

/// Relies on `str::parse::<i64>`, documented to accept an optional sign
/// followed by decimal digits only, and to fail on anything else or on
/// overflow.
#[verifier::external_body]
fn parse_i64(s: &str) -> (r: Option<i64>)
    ensures
        r == parse_i64_spec(s@),
{
    s.parse::<i64>().ok()
}

/// Reads an optional text as a base-10 `i64`.
#[allow(non_snake_case)]
pub fn str_to_i6Old(s: Option<&str>) -> (r: Option<i64>)
    ensures
        r == match s {
            Some(t) => parse_i64_spec(t@),
            None => None,
        },
{
    match s {
        Some(t) => parse_i64(t),
        None => None,
    }
}

/// The string-or-number to integer reading of a source value.
pub open spec fn int_of(v: JsonValue) -> Option<i64> {
    match v {
        JsonValue::String(s) => parse_i64_spec(s@),
        JsonValue::Number { integral, text } => integral,
        _ => None,
    }
}

/// Reads a JSON string as a base-10 integer, or takes an integral number's
/// value; any other value gives nothing.
pub fn str_to_i64(val: &JsonValue) -> (r: Option<i64>)
    ensures
        r == int_of(*val),
{
    match val {
        JsonValue::String(s) => parse_i64(s.as_str()),
        JsonValue::Number { integral, text } => *integral,
        _ => None,
    }
}

/// The cell that a source value gives in a column of the given type.
pub open spec fn coerce_spec(t: TypeOid, v: JsonValue) -> Option<Cell> {
    match t {
        TypeOid::Bool => match v {
            JsonValue::Bool(b) => Some(Cell::Bool(b)),
            _ => None,
        },
        TypeOid::String => match v {
            JsonValue::String(s) => Some(Cell::String(s)),
            _ => None,
        },
        TypeOid::I32 => match int_of(v) {
            Some(n) => Some(Cell::I32(n as i32)),
            None => None,
        },
        TypeOid::I64 => match int_of(v) {
            Some(n) => Some(Cell::I64(n)),
            None => None,
        },
        TypeOid::Timestamp => match int_of(v) {
            Some(n) => if i64::MIN <= n * 1000 <= i64::MAX {
                Some(Cell::Timestamp((n * 1000) as i64))
            } else {
                None
            },
            None => None,
        },
        TypeOid::Json => match v {
            JsonValue::Object { text } => Some(Cell::Json(text)),
            _ => None,
        },
        TypeOid::Other => None,
    }
}

/// Coerces a source value into a cell of the given type. Total: a value of
/// the wrong kind, a text that is no integer, or a timestamp out of range
/// gives an absent cell.
pub fn map_value_to_cell(type_oid: TypeOid, value: &JsonValue) -> (r: Option<Cell>)
    ensures
        r == coerce_spec(type_oid, *value),
{
    match type_oid {
        TypeOid::Bool => match value {
            JsonValue::Bool(b) => Some(Cell::Bool(*b)),
            _ => None,
        },
        TypeOid::String => match value {
            JsonValue::String(s) => Some(Cell::String(s.clone())),
            _ => None,
        },
        TypeOid::I32 => match str_to_i64(value) {
            Some(n) => Some(Cell::I32(n as i32)),
            None => None,
        },
        TypeOid::I64 => match str_to_i64(value) {
            Some(n) => Some(Cell::I64(n)),
            None => None,
        },
        TypeOid::Timestamp => match str_to_i64(value) {
            Some(n) => match n.checked_mul(1000) {
                Some(ms) => Some(Cell::Timestamp(ms)),
                None => None,
            },
            None => None,
        },
        TypeOid::Json => match value {
            JsonValue::Object { text } => Some(Cell::Json(text.clone())),
            _ => None,
        },
        TypeOid::Other => None,
    }
}

} // verus!
