use vstd::prelude::*;

verus! {

/// `serde_json::Value`, a JSON document; this library only carries it.
#[verifier::external_type_specification]
#[verifier::external_body]
pub struct ExJsonValue(serde_json::Value);

} // verus!
