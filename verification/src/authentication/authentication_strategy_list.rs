//! The `AuthenticationStrategyList` query.

use vstd::prelude::*;

use crate::authentication::AuthenticationStrategy;

verus! {

pub struct AuthenticationStrategyList;

pub const OPERATION_NAME: &'static str = "AuthenticationStrategyList";

pub const QUERY: &'static str = "query AuthenticationStrategyList {\n  authentication {\n    strategies {\n      key\n      props {\n        key\n        value\n      }\n      title\n      description\n      isAvailable\n      useForm\n      usernameType\n      logo\n      color\n      website\n      icon\n    }\n  }\n}\n";

#[derive(Debug)]
pub struct Variables;

#[derive(Debug)]
pub struct ResponseData {
    pub authentication: Option<Authentication>,
}

#[derive(Debug)]
pub struct Authentication {
    pub strategies: Option<Vec<Option<AuthenticationStrategy>>>,
}

/// The listed items, where the answer holds them.
pub open spec fn spec_payload(data: Option<ResponseData>) -> Option<Vec<Option<AuthenticationStrategy>>> {
    match data {
        Some(ResponseData { authentication: Some(Authentication { strategies: Some(strategies) }) }) => Some(strategies),
        _ => None,
    }
}

/// Tells whether the answer holds the listed items.
pub fn has_payload(data: &Option<ResponseData>) -> (present: bool)
    ensures
        present == spec_payload(*data) is Some,
{
    match data {
        Some(ResponseData { authentication: Some(Authentication { strategies: Some(_) }) }) => true,
        _ => false,
    }
}

/// Where the answer holds the listed items: read off the path of fields that lead to
/// it; an absent field on the way means the answer does not hold it.
pub proof fn lemma_answer_read(data: ResponseData, authentication: Authentication, strategies: Vec<Option<AuthenticationStrategy>>)
    ensures
        spec_payload(None) is None,
        data.authentication is None ==> spec_payload(Some(data)) is None,
        data.authentication == Some(authentication) && authentication.strategies is None ==> spec_payload(Some(data)) is None,
        data.authentication == Some(authentication) && authentication.strategies == Some(strategies) ==> spec_payload(Some(data)) == Some(strategies),
{
}

} // verus!
