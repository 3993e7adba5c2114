//! Reading JSON and TOML text into the library's tree, and writing the tree
//! as JSON text, with `serde_json` and `toml`.
use vstd::prelude::*;
use crate::json::{Json, JsonValue};
use crate::json::JsonNumber::{Float, NegInt, PosInt};
use crate::json::JsonValue::{Array, Bool, Null, Number, Object, Str};
use serde_json::Value;
use toml::Value as TomlValue;

verus! {

/// `serde_json::Value`, carried through opaquely.
#[verifier::external_type_specification]
#[verifier::external_body]
pub struct ExSerdeValue(serde_json::Value);

/// `toml::Value`, carried through opaquely.
#[verifier::external_type_specification]
#[verifier::external_body]
pub struct ExTomlValue(toml::Value);

/// The tree that `serde_json::from_slice` reads from the bytes (objects
/// with their members in key order, as its maps keep them), or `None` where
/// it refuses them.
pub uninterp spec fn json_parse(bytes: Seq<u8>) -> Option<Json>;

/// The text that `serde_json::to_string` writes for a tree.
pub uninterp spec fn json_text(v: Json) -> Seq<char>;

/// The tree that `str::parse::<toml::Value>` reads from the text (tables as
/// objects in key order, arrays as arrays, date-times as their text), or
/// `None` where it refuses it.
pub uninterp spec fn toml_tree(text: Seq<char>) -> Option<Json>;

/// `serde_json::from_slice` into a `serde_json::Value`, turned into the
/// library's tree.
#[verifier::external_body]
pub fn parse_json(bytes: &[u8]) -> (r: Option<JsonValue>)
    ensures
        match r {
            Some(v) => json_parse(bytes@) == Some(v.view()),
            None => json_parse(bytes@) is None,
        },
{
    match serde_json::from_slice::<serde_json::Value>(bytes) {
        Ok(v) => Some(value_from_serde(&v)),
        Err(_) => None,
    }
}

/// `serde_json::to_string` of the tree, made a `serde_json::Value` first.
#[verifier::external_body]
pub fn render_json(v: &JsonValue) -> (r: String)
    ensures
        r@ == json_text(v.view()),
{
    match serde_json::to_string(&value_to_serde(v)) {
        Ok(s) => s,
        Err(_) => String::new(),
    }
}

/// `str::parse::<toml::Value>`, turned into the library's tree; the error's
/// text where the parse fails. What that text says is not stated.
#[verifier::external_body]
pub fn parse_manifest(text: &str) -> (r: Result<JsonValue, String>)
    ensures
        match r {
            Ok(v) => toml_tree(text@) == Some(v.view()),
            Err(_) => toml_tree(text@) is None,
        },
{
    match text.parse::<toml::Value>() {
        Ok(v) => Ok(value_from_toml(&v)),
        Err(e) => Err(e.to_string()),
    }
}

/// The same tree as a `serde_json::Value` turned into the library's type,
/// node for node: numbers by `as_u64`, else `as_i64`, else their text.
#[verifier::external_body]
fn value_from_serde(v: &Value) -> JsonValue {
    match v {
        Value::Null => Null,
        Value::Bool(b) => Bool(*b),
        Value::Number(n) => match (n.as_u64(), n.as_i64()) {
            (Some(u), _) => Number(PosInt(u)),
            (None, Some(i)) => Number(NegInt(i)),
            (None, None) => Number(Float(n.to_string())),
        },
        Value::String(s) => Str(s.clone()),
        Value::Array(a) => Array(a.iter().map(value_from_serde).collect()),
        Value::Object(m) => Object(
            m.iter().map(|(k, x)| (k.clone(), value_from_serde(x))).collect(),
        ),
    }
}

/// The library's tree as a `serde_json::Value`, node for node; a number
/// kept as text is read back as a `serde_json::Number`.
#[verifier::external_body]
fn value_to_serde(v: &JsonValue) -> Value {
    match v {
        Null => Value::Null,
        Bool(b) => Value::Bool(*b),
        Number(PosInt(u)) => Value::from(*u),
        Number(NegInt(i)) => Value::from(*i),
        Number(Float(t)) => t.parse::<serde_json::Number>().map_or(Value::Null, Value::Number),
        Str(s) => Value::String(s.clone()),
        Array(a) => Value::Array(a.iter().map(value_to_serde).collect()),
        Object(m) => Value::Object(
            m.iter().map(|(k, x)| (k.clone(), value_to_serde(x))).collect(),
        ),
    }
}

/// A `toml::Value` as the library's tree, node for node: integers by sign,
/// floats and date-times as their text.
#[verifier::external_body]
fn value_from_toml(v: &TomlValue) -> JsonValue {
    match v {
        TomlValue::String(s) => Str(s.clone()),
        TomlValue::Integer(i) => match u64::try_from(*i) {
            Ok(u) => Number(PosInt(u)),
            Err(_) => Number(NegInt(*i)),
        },
        TomlValue::Float(f) => Number(Float(f.to_string())),
        TomlValue::Boolean(b) => Bool(*b),
        TomlValue::Datetime(d) => Str(d.to_string()),
        TomlValue::Array(a) => Array(a.iter().map(value_from_toml).collect()),
        TomlValue::Table(t) => Object(
            t.iter().map(|(k, x)| (k.clone(), value_from_toml(x))).collect(),
        ),
    }
}

} // verus!
