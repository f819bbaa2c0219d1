//! The `Login` mutation.

use vstd::prelude::*;

use crate::authentication::AuthenticationLoginResponse;

verus! {

pub struct Login;

pub const OPERATION_NAME: &'static str = "Login";

pub const QUERY: &'static str = "mutation Login($username: String!, $password: String!, $strategy: String!) {\n  authentication {\n    login(username: $username, password: $password, strategy: $strategy) {\n      responseResult {\n        succeeded\n        errorCode\n        slug\n        message\n      }\n      jwt\n      mustChangePwd\n      mustProvideTFA\n      mustSetupTFA\n      continuationToken\n      redirect\n      tfaQRImage\n    }\n  }\n}\n";

#[derive(Debug)]
pub struct Variables {
    pub username: String,
    pub password: String,
    pub strategy: String,
}

#[derive(Debug)]
pub struct ResponseData {
    pub authentication: Option<Authentication>,
}

#[derive(Debug)]
pub struct Authentication {
    pub login: Option<AuthenticationLoginResponse>,
}

/// What the answer asks for, where the answer holds it.
pub open spec fn spec_payload(data: Option<ResponseData>) -> Option<AuthenticationLoginResponse> {
    match data {
        Some(ResponseData { authentication: Some(Authentication { login: Some(login) }) }) => Some(login),
        _ => None,
    }
}

/// Tells whether the answer holds what the query asks for.
pub fn has_payload(data: &Option<ResponseData>) -> (present: bool)
    ensures
        present == spec_payload(*data) is Some,
{
    match data {
        Some(ResponseData { authentication: Some(Authentication { login: Some(_) }) }) => true,
        _ => false,
    }
}

/// Where the answer holds what the query asks for: read off the path of fields that lead to
/// it; an absent field on the way means the answer does not hold it.
pub proof fn lemma_answer_read(data: ResponseData, authentication: Authentication, login: AuthenticationLoginResponse)
    ensures
        spec_payload(None) is None,
        data.authentication is None ==> spec_payload(Some(data)) is None,
        data.authentication == Some(authentication) && authentication.login is None ==> spec_payload(Some(data)) is None,
        data.authentication == Some(authentication) && authentication.login == Some(login) ==> spec_payload(Some(data)) == Some(login),
{
}

} // verus!
