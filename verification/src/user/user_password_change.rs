//! The `UserPasswordChange` mutation.

use vstd::prelude::*;

use crate::common::ResponseStatus;
use crate::user::UserTokenResponse;

verus! {

pub struct UserPasswordChange;

pub const OPERATION_NAME: &'static str = "UserPasswordChange";

pub const QUERY: &'static str = "mutation UserPasswordChange($current: String!, $new: String!) {\n  users {\n    changePassword(current: $current, new: $new) {\n      responseResult {\n        succeeded\n        errorCode\n        slug\n        message\n      }\n      jwt\n    }\n  }\n}\n";

#[derive(Debug)]
pub struct Variables {
    pub current: String,
    pub new: String,
}

#[derive(Debug)]
pub struct ResponseData {
    pub users: Option<Users>,
}

#[derive(Debug)]
pub struct Users {
    pub change_password: Option<UserTokenResponse>,
}

/// The status of the mutation and the token it returns, where the answer holds it.
pub open spec fn spec_payload(data: Option<ResponseData>) -> Option<(ResponseStatus, Option<String>)> {
    match data {
        Some(ResponseData { users: Some(Users { change_password: Some(UserTokenResponse { response_result: status, jwt }) }) }) => Some((status, jwt)),
        _ => None,
    }
}

/// Tells whether the answer holds the status of the mutation and the token it returns.
pub fn has_payload(data: &Option<ResponseData>) -> (present: bool)
    ensures
        present == spec_payload(*data) is Some,
{
    match data {
        Some(ResponseData { users: Some(Users { change_password: Some(UserTokenResponse { response_result: _, jwt: _ }) }) }) => true,
        _ => false,
    }
}

/// Where the answer holds the status of the mutation and the token it returns: read off the path of fields that lead to
/// it; an absent field on the way means the answer does not hold it.
pub proof fn lemma_answer_read(data: ResponseData, users: Users, change_password: UserTokenResponse)
    ensures
        spec_payload(None) is None,
        data.users is None ==> spec_payload(Some(data)) is None,
        data.users == Some(users) && users.change_password is None ==> spec_payload(Some(data)) is None,
        data.users == Some(users) && users.change_password == Some(change_password) ==> spec_payload(Some(data)) == Some((change_password.response_result, change_password.jwt)),
{
}

} // verus!
