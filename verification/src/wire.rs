//! The text edge of the codec: JSON text to and from the value tree.
//!
//! Parsing and printing of JSON text are delegated to serde_json; everything
//! this module states about them is trusted, and the two directions are named
//! by uninterpreted functions of the text or of the tree alone. All decisions
//! about tags, fields and kinds are taken elsewhere, in verified code, on the
//! [`JsonValue`] tree.

use vstd::prelude::*;

use crate::json::JsonValue;
use crate::json::JsonView;

verus! {

#[verifier::external_type_specification]
#[verifier::external_body]
pub struct ExValue(serde_json::Value);

/// The tree that parsing a given text yields, `None` where the text is not a
/// JSON document whose numbers all fit in `i64`. Parsing depends on the
/// characters alone.
pub uninterp spec fn json_of_text(s: Seq<char>) -> Option<JsonView>;

/// The text that printing a given tree yields. Printing depends on the tree
/// alone.
pub uninterp spec fn text_of_json(j: JsonView) -> Seq<char>;

/// Relies on the variants of serde_json::Value: each maps to the value tree's
/// matching variant, with object entries kept as key/value pairs; a number
/// that does not fit in `i64` is refused.
#[verifier::external_body]
fn value_to_json(v: &serde_json::Value) -> (r: Option<JsonValue>) {
    match v {
        serde_json::Value::Null => Some(JsonValue::Null),
        serde_json::Value::Bool(b) => Some(JsonValue::Bool(*b)),
        serde_json::Value::Number(n) => Some(JsonValue::Int(n.as_i64()?)),
        serde_json::Value::String(s) => Some(JsonValue::Str(s.clone())),
        serde_json::Value::Array(items) => Some(JsonValue::Arr(
            items.iter().map(value_to_json).collect::<Option<Vec<JsonValue>>>()?,
        )),
        serde_json::Value::Object(entries) => Some(JsonValue::Obj(
            entries.iter().map(|(k, x)| Some((k.clone(), value_to_json(x)?))).collect::<Option<
                Vec<(String, JsonValue)>,
            >>()?,
        )),
    }
}

/// Relies on the constructors of serde_json::Value: the inverse direction of
/// `value_to_json`, building one Value variant per tree variant.
#[verifier::external_body]
fn json_to_value(v: &JsonValue) -> (r: serde_json::Value) {
    match v {
        JsonValue::Null => serde_json::Value::Null,
        JsonValue::Bool(b) => serde_json::Value::Bool(*b),
        JsonValue::Int(i) => serde_json::Value::Number(serde_json::Number::from(*i)),
        JsonValue::Str(s) => serde_json::Value::String(s.clone()),
        JsonValue::Arr(items) => serde_json::Value::Array(
            items.iter().map(json_to_value).collect(),
        ),
        JsonValue::Obj(fields) => serde_json::Value::Object(
            fields.iter().map(|(k, x)| (k.clone(), json_to_value(x))).collect(),
        ),
    }
}

/// Relies on serde_json::from_str: parses JSON text into a value tree, and
/// fails exactly on text that is not such a document.
#[verifier::external_body]
pub fn parse_json(s: &str) -> (r: Option<JsonValue>)
    ensures
        r.deep_view() == json_of_text(s@),
{
    match serde_json::from_str::<serde_json::Value>(s) {
        Ok(v) => value_to_json(&v),
        Err(_) => None,
    }
}

/// Relies on serde_json::to_string: prints a value tree as JSON text.
#[verifier::external_body]
pub fn render_json(v: &JsonValue) -> (r: String)
    ensures
        r@ == text_of_json(v.deep_view()),
{
    match serde_json::to_string(&json_to_value(v)) {
        Ok(s) => s,
        Err(_) => String::new(),
    }
}

} // verus!
