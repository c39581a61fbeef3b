use vstd::prelude::*;

verus! {

// The parsed-document types the trusted parse helpers pass around; both
// are opaque here.

#[verifier::external_type_specification]
#[verifier::external_body]
pub struct ExJsonValue(serde_json::Value);

#[verifier::external_type_specification]
#[verifier::external_body]
pub struct ExJsonNumber(serde_json::Number);

} // verus!
