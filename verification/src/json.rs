use vstd::prelude::*;

use serde_json::Value;

verus! {

#[verifier::external_type_specification]
#[verifier::external_body]
pub struct ExJsonValue(Value);

/// `Clone` of `serde_json::Value`, whose derived impl copies each part of the value: the
/// copy is equal to the original.
#[verifier::external_body]
pub(crate) fn clone_json(value: &Value) -> (copy: Value)
    ensures
        copy == *value,
{
    value.clone()
}

} // verus!
