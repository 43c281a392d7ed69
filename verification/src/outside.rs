use vstd::prelude::*;

verus! {

#[verifier::external_type_specification]
#[verifier::external_body]
pub struct ExClient(reqwest::blocking::Client);

#[verifier::external_type_specification]
#[verifier::external_body]
pub struct ExMethod(reqwest::Method);

#[verifier::external_type_specification]
#[verifier::external_body]
pub struct ExRequestBuilder(reqwest::blocking::RequestBuilder);

#[verifier::external_type_specification]
#[verifier::external_body]
pub struct ExResponse(reqwest::blocking::Response);

#[verifier::external_type_specification]
#[verifier::external_body]
pub struct ExJsonValue(serde_json::Value);

} // verus!
