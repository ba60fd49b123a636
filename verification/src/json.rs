//! The structured-value model and the parse step behind it.
//!
//! For a structured flag the engine hands back the flag's value
//! pre-serialized as JSON text. The text is parsed by serde and the parsed
//! tree is rebuilt here as the library's own value model, following the
//! OpenFeature framework's JSON conversion rules. The translation logic
//! only ever looks at the outcome of that step.

use vstd::prelude::*;

verus! {

/// A generic structured value, as the provider hands it out: the JSON data
/// model, with floats carried as their raw bits.
#[derive(Debug, PartialEq)]
pub enum FlagValue {
    /// Boolean value.
    Bool(bool),
    /// Signed integer value.
    Int(i64),
    /// Float value, as its raw bits.
    Float(u64),
    /// String value.
    Str(String),
    /// Array of values.
    Array(Vec<FlagValue>),
    /// Keyed mapping of values.
    Struct(StructValue),
}

/// A keyed mapping of named values: the only shape a structured flag may
/// resolve to.
#[derive(Debug, PartialEq)]
pub struct StructValue {
    /// The fields of the structure as key-value pairs.
    pub fields: Vec<(String, FlagValue)>,
}

/// The outcome of parsing a structured flag's serialized text.
pub enum ParseOutcome {
    /// The text is not well-formed JSON; carries the parser's diagnostic.
    Syntax(String),
    /// The text is well-formed JSON but holds data with no place in the
    /// provider's value model (a null, or an integer outside both ranges).
    Unconvertible,
    /// The parsed value.
    Val(FlagValue),
}

/// What parsing a given text yields. The outcome is a function of the text
/// alone; nothing more is assumed of it here.
pub uninterp spec fn json_of(s: Seq<char>) -> ParseOutcome;

#[verifier::external_type_specification]
#[verifier::external_body]
/// A parsed JSON tree of the serde data model.
pub struct ExSerdeValue(serde_json::Value);

#[verifier::external_type_specification]
#[verifier::external_body]
#[verifier::reject_recursive_types(K)]
#[verifier::reject_recursive_types(V)]
/// The map that holds the fields of a parsed JSON object in the serde data
/// model.
pub struct ExSerdeMap<K, V>(serde_json::Map<K, V>);

/// Relies on serde_json::from_str to parse the flag's serialized text; the
/// parsed tree is rebuilt in the library's value model by [`convert_json`].
/// The whole outcome, diagnostic text included, depends on the input text
/// alone.
#[verifier::external_body]
pub(crate) fn parse_value_text(s: &str) -> (r: ParseOutcome)
    ensures
        r == json_of(s@),
{
    match serde_json::from_str::<serde_json::Value>(s) {
        Ok(v) => match convert_json(v) {
            Some(val) => ParseOutcome::Val(val),
            None => ParseOutcome::Unconvertible,
        },
        Err(e) => ParseOutcome::Syntax(format!("{e}")),
    }
}

/// Rebuilds a serde JSON tree in the library's value model, mirroring the
/// OpenFeature framework's conversion from parsed JSON: integers that fit
/// i64 stay integers, other finite numbers become floats (carried as raw
/// bits), and a null or an integer outside both ranges converts to nothing.
/// Object fields come out in the deterministic order serde's map iterates
/// them in.
#[verifier::external_body]
fn convert_json(v: serde_json::Value) -> (r: Option<FlagValue>) {
    match v {
        serde_json::Value::Bool(b) => Some(FlagValue::Bool(b)),
        serde_json::Value::Number(n) if n.is_i64() => Some(FlagValue::Int(n.as_i64()?)),
        serde_json::Value::Number(n) if n.is_f64() => Some(FlagValue::Float(n.as_f64()?.to_bits())),
        serde_json::Value::String(s) => Some(FlagValue::Str(s)),
        serde_json::Value::Array(items) => Some(FlagValue::Array(convert_json_items(items)?)),
        serde_json::Value::Object(fields) => Some(FlagValue::Struct(convert_json_fields(fields)?)),
        _ => None,
    }
}

/// Rebuilds the elements of a parsed JSON array via [`convert_json`],
/// keeping their order; any unconvertible element fails the whole array.
#[verifier::external_body]
fn convert_json_items(items: Vec<serde_json::Value>) -> (r: Option<Vec<FlagValue>>) {
    items.into_iter().map(convert_json).collect()
}

/// Rebuilds the fields of a parsed JSON object via [`convert_json`], in the
/// deterministic order serde's map iterates them in; any unconvertible
/// field value fails the whole object.
#[verifier::external_body]
fn convert_json_fields(fields: serde_json::Map<String, serde_json::Value>) -> (r: Option<
    StructValue,
>) {
    let pairs: Option<Vec<(String, FlagValue)>> =
        fields.into_iter().map(|p| Some((p.0, convert_json(p.1)?))).collect();
    Some(StructValue { fields: pairs? })
}

} // verus!
