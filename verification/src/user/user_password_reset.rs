//! The `UserPasswordReset` mutation.

use vstd::prelude::*;

use crate::common::{Int, ResponseStatus};

verus! {

pub struct UserPasswordReset;

pub const OPERATION_NAME: &'static str = "UserPasswordReset";

pub const QUERY: &'static str = "mutation UserPasswordReset($id: Int!) {\n  users {\n    resetPassword(id: $id) {\n      responseResult {\n        succeeded\n        errorCode\n        slug\n        message\n      }\n    }\n  }\n}\n";

#[derive(Debug)]
pub struct Variables {
    pub id: Int,
}

#[derive(Debug)]
pub struct ResponseData {
    pub users: Option<Users>,
}

#[derive(Debug)]
pub struct Users {
    pub reset_password: Option<ResetPassword>,
}

#[derive(Debug)]
pub struct ResetPassword {
    pub response_result: Option<ResponseStatus>,
}

/// The status of the mutation, where the answer holds it.
pub open spec fn spec_payload(data: Option<ResponseData>) -> Option<ResponseStatus> {
    match data {
        Some(ResponseData { users: Some(Users { reset_password: Some(ResetPassword { response_result: Some(response_result) }) }) }) => Some(response_result),
        _ => None,
    }
}

/// Tells whether the answer holds the status of the mutation.
pub fn has_payload(data: &Option<ResponseData>) -> (present: bool)
    ensures
        present == spec_payload(*data) is Some,
{
    match data {
        Some(ResponseData { users: Some(Users { reset_password: Some(ResetPassword { response_result: Some(_) }) }) }) => true,
        _ => false,
    }
}

/// Where the answer holds the status of the mutation: read off the path of fields that lead to
/// it; an absent field on the way means the answer does not hold it.
pub proof fn lemma_answer_read(data: ResponseData, users: Users, reset_password: ResetPassword, response_result: ResponseStatus)
    ensures
        spec_payload(None) is None,
        data.users is None ==> spec_payload(Some(data)) is None,
        data.users == Some(users) && users.reset_password is None ==> spec_payload(Some(data)) is None,
        data.users == Some(users) && users.reset_password == Some(reset_password) && reset_password.response_result is None ==> spec_payload(Some(data)) is None,
        data.users == Some(users) && users.reset_password == Some(reset_password) && reset_password.response_result == Some(response_result) ==> spec_payload(Some(data)) == Some(response_result),
{
}

} // verus!
