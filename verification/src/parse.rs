//! Parsing response bodies into the [`Json`] model.
//!
//! The parsing itself is serde_json's; this module only carries its result
//! over into the library's own value type, so that everything after the
//! parse is verified.

use vstd::prelude::*;
use crate::json::Json;

verus! {

/// serde_json's generic value type. It is opaque to the verifier; values of
/// it only travel from the parser to the converter below.
#[verifier::external_type_specification]
#[verifier::external_body]
pub struct ExValue(serde_json::Value);

/// What parsing a text as JSON yields: `Some` with the parsed value's shape
/// when the text is well-formed JSON, `None` when it is not. The outcome
/// depends on the text alone.
pub uninterp spec fn spec_parse(s: Seq<char>) -> Option<Json>;

/// Relies on serde_json::Value's variants: each arm carries one variant's
/// content into the library's model; a number keeps its decimal text.
#[verifier::external_body]
fn value_to_json(v: &serde_json::Value) -> Json {
    match v {
        serde_json::Value::Null => Json::Null,
        serde_json::Value::Bool(b) => Json::Bool(*b),
        serde_json::Value::Number(n) => Json::Num(n.to_string()),
        serde_json::Value::String(s) => Json::Str(s.clone()),
        serde_json::Value::Array(a) => Json::Arr(a.iter().map(value_to_json).collect()),
        serde_json::Value::Object(m) => Json::Obj(
            m.iter().map(|(k, x)| (k.clone(), value_to_json(x))).collect(),
        ),
    }
}

/// Relies on serde_json::from_str::<Value>: it returns `Ok` exactly on
/// well-formed JSON text, and what it returns is a function of the text
/// alone.
#[verifier::external_body]
pub fn parse_json(s: &str) -> (r: Option<Json>)
    ensures
        r == spec_parse(s@),
{
    match serde_json::from_str::<serde_json::Value>(s) {
        Ok(v) => Some(value_to_json(&v)),
        Err(_) => None,
    }
}

} // verus!
