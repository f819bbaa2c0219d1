//! The `UserDeactivate` mutation.

use vstd::prelude::*;

use crate::common::{Int, ResponseStatus};

verus! {

pub struct UserDeactivate;

pub const OPERATION_NAME: &'static str = "UserDeactivate";

pub const QUERY: &'static str = "mutation UserDeactivate($id: Int!) {\n  users {\n    deactivate (id: $id) {\n      responseResult {\n        succeeded\n        errorCode\n        slug\n        message\n      }\n    }\n  }\n}\n";

#[derive(Debug)]
pub struct Variables {
    pub id: Int,
}

#[derive(Debug)]
pub struct ResponseData {
    pub users: Option<Users>,
}

#[derive(Debug)]
pub struct Users {
    pub deactivate: Option<Deactivate>,
}

#[derive(Debug)]
pub struct Deactivate {
    pub response_result: Option<ResponseStatus>,
}

/// The status of the mutation, where the answer holds it.
pub open spec fn spec_payload(data: Option<ResponseData>) -> Option<ResponseStatus> {
    match data {
        Some(ResponseData { users: Some(Users { deactivate: Some(Deactivate { response_result: Some(response_result) }) }) }) => Some(response_result),
        _ => None,
    }
}

/// Tells whether the answer holds the status of the mutation.
pub fn has_payload(data: &Option<ResponseData>) -> (present: bool)
    ensures
        present == spec_payload(*data) is Some,
{
    match data {
        Some(ResponseData { users: Some(Users { deactivate: Some(Deactivate { response_result: Some(_) }) }) }) => true,
        _ => false,
    }
}

/// Where the answer holds the status of the mutation: read off the path of fields that lead to
/// it; an absent field on the way means the answer does not hold it.
pub proof fn lemma_answer_read(data: ResponseData, users: Users, deactivate: Deactivate, response_result: ResponseStatus)
    ensures
        spec_payload(None) is None,
        data.users is None ==> spec_payload(Some(data)) is None,
        data.users == Some(users) && users.deactivate is None ==> spec_payload(Some(data)) is None,
        data.users == Some(users) && users.deactivate == Some(deactivate) && deactivate.response_result is None ==> spec_payload(Some(data)) is None,
        data.users == Some(users) && users.deactivate == Some(deactivate) && deactivate.response_result == Some(response_result) ==> spec_payload(Some(data)) == Some(response_result),
{
}

} // verus!
