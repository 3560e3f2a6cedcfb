//! JSON documents carried through the library without being read.

use vstd::prelude::*;

verus! {

/// A JSON document (`serde_json::Value`). The library stores and hands on
/// such values; it never looks inside one.
#[verifier::external_type_specification]
#[verifier::external_body]
pub struct ExJsonValue(serde_json::Value);

/// `Value::clone`, a derived `Clone`: a document equal to the one cloned.
pub assume_specification[ <serde_json::Value as Clone>::clone ](v: &serde_json::Value) -> (r: serde_json::Value)
    ensures
        r == *v,
;

} // verus!
