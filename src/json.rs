use vstd::prelude::*;

verus! {

/// A dynamic source value, holding what the adapter reads of a JSON node.
///
/// A number carries its integer value, when it is integral and fits in
/// `i64`, and its JSON text. Arrays and objects carry their JSON text; the
/// adapter never looks inside them.
#[derive(Debug, Clone, PartialEq, Eq)]
pub enum JsonValue {
    Null,
    Bool(bool),
    Number { integral: Option<i64>, text: String },
    String(String),
    Array { text: String },
    Object { text: String },
}

/// The textual form of a value used as a row identifier: a string stands
/// for itself, any other value for its JSON text.
pub open spec fn id_text(v: JsonValue) -> Seq<char> {
    match v {
        JsonValue::Null => "null"@,
        JsonValue::Bool(b) => if b { "true"@ } else { "false"@ },
        JsonValue::Number { integral, text } => text@,
        JsonValue::String(s) => s@,
        JsonValue::Array { text } => text@,
        JsonValue::Object { text } => text@,
    }
}

impl JsonValue {
    /// The row identifier that this value stands for.
    pub fn to_id_text(&self) -> (r: String)
        ensures
            r@ == id_text(*self),
    {
        match self {
            JsonValue::Null => String::from_str("null"),
            JsonValue::Bool(b) => if *b {
                String::from_str("true")
            } else {
                String::from_str("false")
            },
            JsonValue::Number { integral, text } => text.clone(),
            JsonValue::String(s) => s.clone(),
            JsonValue::Array { text } => text.clone(),
            JsonValue::Object { text } => text.clone(),
        }
    }
}

} // verus!
