//! An in-memory JSON document, and the trusted boundary to the `serde_json`
//! parser that produces one from a line of text.

use vstd::prelude::*;

verus! {

/// A parsed JSON document. Numbers are kept only as far as the event format
/// reads them: `Num(Some(n))` is an integer representable as `u64`,
/// `Num(None)` any other JSON number (negative or fractional).
#[derive(Debug, PartialEq)]
pub enum JsonValue {
    Null,
    Bool(bool),
    Num(Option<u64>),
    Str(String),
    Arr(Vec<JsonValue>),
    Obj(Vec<(String, JsonValue)>),
}

#[verifier::external_type_specification]
#[verifier::external_body]
pub struct ExValue(serde_json::Value);

/// What the text parses to as a JSON document, rebuilt as a [`JsonValue`]:
/// `None` when the text is not valid JSON. Parsing is a function of the text
/// alone, so the result carries a name rather than a transcription of the
/// JSON grammar.
pub uninterp spec fn json_of(s: Seq<char>) -> Option<JsonValue>;

/// Relies on the structure of `serde_json::Value`: the parsed tree is rebuilt
/// variant by variant, object entries in the order the parser's map yields
/// them and numbers through `serde_json::Number::as_u64`.
#[verifier::external_body]
fn value_to_json(v: serde_json::Value) -> JsonValue {
    match v {
        serde_json::Value::Null => JsonValue::Null,
        serde_json::Value::Bool(b) => JsonValue::Bool(b),
        serde_json::Value::Number(n) => JsonValue::Num(n.as_u64()),
        serde_json::Value::String(s) => JsonValue::Str(s),
        serde_json::Value::Array(a) => JsonValue::Arr(a.into_iter().map(value_to_json).collect()),
        serde_json::Value::Object(m) => JsonValue::Obj(
            m.into_iter().map(|(k, x)| (k, value_to_json(x))).collect(),
        ),
    }
}

/// Relies on `serde_json::from_str::<serde_json::Value>`: it returns `Ok`
/// exactly on valid JSON text, and its result depends on the text alone.
#[verifier::external_body]
pub fn parse_json(s: &str) -> (r: Option<JsonValue>)
    ensures
        r == json_of(s@),
{
    match serde_json::from_str::<serde_json::Value>(s) {
        Ok(v) => Some(value_to_json(v)),
        Err(_) => None,
    }
}

} // verus!
