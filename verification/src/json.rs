//! JSON values, carried as `serde_json` values.

use serde_json::Value;
use vstd::prelude::*;

verus! {

/// A JSON value of `serde_json`. The library carries such values and never looks inside.
#[verifier::external_type_specification]
#[verifier::external_body]
pub struct ExJsonValue(serde_json::Value);

/// `Clone` of `serde_json::Value`, a derived impl: the copy is the same JSON value.
pub assume_specification[ <Value as Clone>::clone ](value: &Value) -> (copy: Value)
    ensures
        copy == *value,
;

/// The copy of an optional JSON value.
pub fn clone_optional(value: &Option<Value>) -> (copy: Option<Value>)
    ensures
        copy == *value,
{
    match value {
        Some(v) => Some(v.clone()),
        None => None,
    }
}

} // verus!
