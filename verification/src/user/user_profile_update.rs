//! The `UserProfileUpdate` mutation.

use vstd::prelude::*;

use crate::common::ResponseStatus;
use crate::user::UserTokenResponse;

verus! {

pub struct UserProfileUpdate;

pub const OPERATION_NAME: &'static str = "UserProfileUpdate";

pub const QUERY: &'static str = "mutation UserProfileUpdate(\n  $name: String!\n  $location: String!\n  $jobTitle: String!\n  $timezone: String!\n  $dateFormat: String!\n  $appearance: String!\n) {\n  users {\n    updateProfile (\n      name: $name\n      location: $location\n      jobTitle: $jobTitle\n      timezone: $timezone\n      dateFormat: $dateFormat\n      appearance: $appearance\n    ) {\n      responseResult {\n        succeeded\n        errorCode\n        slug\n        message\n      }\n      jwt\n    }\n  }\n}\n";

#[derive(Debug)]
pub struct Variables {
    pub name: String,
    pub location: String,
    pub job_title: String,
    pub timezone: String,
    pub date_format: String,
    pub appearance: String,
}

#[derive(Debug)]
pub struct ResponseData {
    pub users: Option<Users>,
}

#[derive(Debug)]
pub struct Users {
    pub update_profile: Option<UserTokenResponse>,
}

/// The status of the mutation and the token it returns, where the answer holds it.
pub open spec fn spec_payload(data: Option<ResponseData>) -> Option<(ResponseStatus, Option<String>)> {
    match data {
        Some(ResponseData { users: Some(Users { update_profile: Some(UserTokenResponse { response_result: status, jwt }) }) }) => Some((status, jwt)),
        _ => None,
    }
}

/// Tells whether the answer holds the status of the mutation and the token it returns.
pub fn has_payload(data: &Option<ResponseData>) -> (present: bool)
    ensures
        present == spec_payload(*data) is Some,
{
    match data {
        Some(ResponseData { users: Some(Users { update_profile: Some(UserTokenResponse { response_result: _, jwt: _ }) }) }) => true,
        _ => false,
    }
}

/// Where the answer holds the status of the mutation and the token it returns: read off the path of fields that lead to
/// it; an absent field on the way means the answer does not hold it.
pub proof fn lemma_answer_read(data: ResponseData, users: Users, update_profile: UserTokenResponse)
    ensures
        spec_payload(None) is None,
        data.users is None ==> spec_payload(Some(data)) is None,
        data.users == Some(users) && users.update_profile is None ==> spec_payload(Some(data)) is None,
        data.users == Some(users) && users.update_profile == Some(update_profile) ==> spec_payload(Some(data)) == Some((update_profile.response_result, update_profile.jwt)),
{
}

} // verus!
