//! The `UserUpdate` mutation.

use vstd::prelude::*;

use crate::common::{Int, ResponseStatus};

verus! {

pub struct UserUpdate;

pub const OPERATION_NAME: &'static str = "UserUpdate";

pub const QUERY: &'static str = "mutation UserUpdate(\n  $id: Int!\n  $email: String\n  $name: String\n  $newPassword: String\n  $groups: [Int]\n  $location: String\n  $jobTitle: String\n  $timezone: String\n  $dateFormat: String\n  $appearance: String\n) {\n  users {\n    update (\n      id: $id\n      email: $email\n      name: $name\n      newPassword: $newPassword\n      groups: $groups\n      location: $location\n      jobTitle: $jobTitle\n      timezone: $timezone\n      dateFormat: $dateFormat\n      appearance: $appearance\n    ) {\n      responseResult {\n        succeeded\n        errorCode\n        slug\n        message\n      }\n    }\n  }\n}\n";

#[derive(Debug)]
pub struct Variables {
    pub id: Int,
    pub email: Option<String>,
    pub name: Option<String>,
    pub new_password: Option<String>,
    pub groups: Option<Vec<Option<Int>>>,
    pub location: Option<String>,
    pub job_title: Option<String>,
    pub timezone: Option<String>,
    pub date_format: Option<String>,
    pub appearance: Option<String>,
}

#[derive(Debug)]
pub struct ResponseData {
    pub users: Option<Users>,
}

#[derive(Debug)]
pub struct Users {
    pub update: Option<Update>,
}

#[derive(Debug)]
pub struct Update {
    pub response_result: Option<ResponseStatus>,
}

/// The status of the mutation, where the answer holds it.
pub open spec fn spec_payload(data: Option<ResponseData>) -> Option<ResponseStatus> {
    match data {
        Some(ResponseData { users: Some(Users { update: Some(Update { response_result: Some(response_result) }) }) }) => Some(response_result),
        _ => None,
    }
}

/// Tells whether the answer holds the status of the mutation.
pub fn has_payload(data: &Option<ResponseData>) -> (present: bool)
    ensures
        present == spec_payload(*data) is Some,
{
    match data {
        Some(ResponseData { users: Some(Users { update: Some(Update { response_result: Some(_) }) }) }) => true,
        _ => false,
    }
}

/// Where the answer holds the status of the mutation: read off the path of fields that lead to
/// it; an absent field on the way means the answer does not hold it.
pub proof fn lemma_answer_read(data: ResponseData, users: Users, update: Update, response_result: ResponseStatus)
    ensures
        spec_payload(None) is None,
        data.users is None ==> spec_payload(Some(data)) is None,
        data.users == Some(users) && users.update is None ==> spec_payload(Some(data)) is None,
        data.users == Some(users) && users.update == Some(update) && update.response_result is None ==> spec_payload(Some(data)) is None,
        data.users == Some(users) && users.update == Some(update) && update.response_result == Some(response_result) ==> spec_payload(Some(data)) == Some(response_result),
{
}

} // verus!
