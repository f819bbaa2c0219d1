//! The `ApiStateGet` query.

use vstd::prelude::*;

use crate::common::Boolean;

verus! {

pub struct ApiStateGet;

pub const OPERATION_NAME: &'static str = "ApiStateGet";

pub const QUERY: &'static str = "query ApiStateGet {\n  authentication {\n    apiState\n  }\n}\n";

#[derive(Debug)]
pub struct Variables;

#[derive(Debug)]
pub struct ResponseData {
    pub authentication: Option<Authentication>,
}

#[derive(Debug)]
pub struct Authentication {
    pub api_state: Boolean,
}

/// What the answer asks for, where the answer holds it.
pub open spec fn spec_payload(data: Option<ResponseData>) -> Option<Boolean> {
    match data {
        Some(ResponseData { authentication: Some(Authentication { api_state }) }) => Some(api_state),
        _ => None,
    }
}

/// Tells whether the answer holds what the query asks for.
pub fn has_payload(data: &Option<ResponseData>) -> (present: bool)
    ensures
        present == spec_payload(*data) is Some,
{
    match data {
        Some(ResponseData { authentication: Some(Authentication { api_state: _ }) }) => true,
        _ => false,
    }
}

/// Where the answer holds what the query asks for: read off the path of fields that lead to
/// it; an absent field on the way means the answer does not hold it.
pub proof fn lemma_answer_read(data: ResponseData, authentication: Authentication)
    ensures
        spec_payload(None) is None,
        data.authentication is None ==> spec_payload(Some(data)) is None,
        data.authentication == Some(authentication) ==> spec_payload(Some(data)) == Some(authentication.api_state),
{
}

} // verus!
