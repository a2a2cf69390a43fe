//! A JSON document, held as plain values.

use vstd::prelude::*;

verus! {

/// `serde_json::Number`, a JSON number, declared so that values can carry
/// it; nothing in this crate reads it, and nothing is claimed of it.
#[verifier::external_type_specification]
#[verifier::external_body]
pub struct ExNumber(serde_json::Number);

/// A JSON value. Objects keep their members as (key, value) pairs in the
/// order of the map they came from.
#[derive(Debug)]
pub enum Value {
    Null,
    Bool(bool),
    Number(serde_json::Number),
    String(String),
    Array(Vec<Value>),
    Object(Vec<(String, Value)>),
}

impl Value {
    /// Whether this is JSON `null`.
    pub fn is_null(&self) -> (r: bool)
        ensures
            r == (*self is Null),
    {
        match self {
            Value::Null => true,
            _ => false,
        }
    }
}

} // verus!
