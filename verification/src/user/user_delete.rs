//! The `UserDelete` mutation.

use vstd::prelude::*;

use crate::common::{Int, ResponseStatus};

verus! {

pub struct UserDelete;

pub const OPERATION_NAME: &'static str = "UserDelete";

pub const QUERY: &'static str = "mutation UserDelete($id: Int!, $replaceId: Int!) {\n  users {\n    delete (id: $id, replaceId: $replaceId) {\n      responseResult {\n        succeeded\n        errorCode\n        slug\n        message\n      }\n    }\n  }\n}\n";

#[derive(Debug)]
pub struct Variables {
    pub id: Int,
    pub replace_id: Int,
}

#[derive(Debug)]
pub struct ResponseData {
    pub users: Option<Users>,
}

#[derive(Debug)]
pub struct Users {
    pub delete: Option<Delete>,
}

#[derive(Debug)]
pub struct Delete {
    pub response_result: Option<ResponseStatus>,
}

/// The status of the mutation, where the answer holds it.
pub open spec fn spec_payload(data: Option<ResponseData>) -> Option<ResponseStatus> {
    match data {
        Some(ResponseData { users: Some(Users { delete: Some(Delete { response_result: Some(response_result) }) }) }) => Some(response_result),
        _ => None,
    }
}

/// Tells whether the answer holds the status of the mutation.
pub fn has_payload(data: &Option<ResponseData>) -> (present: bool)
    ensures
        present == spec_payload(*data) is Some,
{
    match data {
        Some(ResponseData { users: Some(Users { delete: Some(Delete { response_result: Some(_) }) }) }) => true,
        _ => false,
    }
}

/// Where the answer holds the status of the mutation: read off the path of fields that lead to
/// it; an absent field on the way means the answer does not hold it.
pub proof fn lemma_answer_read(data: ResponseData, users: Users, delete: Delete, response_result: ResponseStatus)
    ensures
        spec_payload(None) is None,
        data.users is None ==> spec_payload(Some(data)) is None,
        data.users == Some(users) && users.delete is None ==> spec_payload(Some(data)) is None,
        data.users == Some(users) && users.delete == Some(delete) && delete.response_result is None ==> spec_payload(Some(data)) is None,
        data.users == Some(users) && users.delete == Some(delete) && delete.response_result == Some(response_result) ==> spec_payload(Some(data)) == Some(response_result),
{
}

} // verus!
