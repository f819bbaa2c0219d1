//! The `ApiKeyList` query.

use vstd::prelude::*;

use crate::authentication::ApiKey;

verus! {

pub struct ApiKeyList;

pub const OPERATION_NAME: &'static str = "ApiKeyList";

pub const QUERY: &'static str = "query ApiKeyList {\n  authentication {\n    apiKeys {\n      id\n      name\n      keyShort\n      expiration\n      createdAt\n      updatedAt\n      isRevoked\n    }\n  }\n}\n";

#[derive(Debug)]
pub struct Variables;

#[derive(Debug)]
pub struct ResponseData {
    pub authentication: Option<Authentication>,
}

#[derive(Debug)]
pub struct Authentication {
    pub api_keys: Option<Vec<Option<ApiKey>>>,
}

/// The listed items, where the answer holds them.
pub open spec fn spec_payload(data: Option<ResponseData>) -> Option<Vec<Option<ApiKey>>> {
    match data {
        Some(ResponseData { authentication: Some(Authentication { api_keys: Some(api_keys) }) }) => Some(api_keys),
        _ => None,
    }
}

/// Tells whether the answer holds the listed items.
pub fn has_payload(data: &Option<ResponseData>) -> (present: bool)
    ensures
        present == spec_payload(*data) is Some,
{
    match data {
        Some(ResponseData { authentication: Some(Authentication { api_keys: Some(_) }) }) => true,
        _ => false,
    }
}

/// Where the answer holds the listed items: read off the path of fields that lead to
/// it; an absent field on the way means the answer does not hold it.
pub proof fn lemma_answer_read(data: ResponseData, authentication: Authentication, api_keys: Vec<Option<ApiKey>>)
    ensures
        spec_payload(None) is None,
        data.authentication is None ==> spec_payload(Some(data)) is None,
        data.authentication == Some(authentication) && authentication.api_keys is None ==> spec_payload(Some(data)) is None,
        data.authentication == Some(authentication) && authentication.api_keys == Some(api_keys) ==> spec_payload(Some(data)) == Some(api_keys),
{
}

} // verus!
