//! The `UserProfileGet` query.

use vstd::prelude::*;

use crate::user::UserProfile;

verus! {

pub struct UserProfileGet;

pub const OPERATION_NAME: &'static str = "UserProfileGet";

pub const QUERY: &'static str = "query UserProfileGet {\n  users {\n    profile {\n      id\n      name\n      email\n      providerKey\n      providerName\n      isSystem\n      isVerified\n      location\n      jobTitle\n      timezone\n      dateFormat\n      appearance\n      createdAt\n      updatedAt\n      lastLoginAt\n      groups\n      pagesTotal\n    }\n  }\n}\n";

#[derive(Debug)]
pub struct Variables;

#[derive(Debug)]
pub struct ResponseData {
    pub users: Option<Users>,
}

#[derive(Debug)]
pub struct Users {
    pub profile: Option<UserProfile>,
}

/// What the answer asks for, where the answer holds it.
pub open spec fn spec_payload(data: Option<ResponseData>) -> Option<UserProfile> {
    match data {
        Some(ResponseData { users: Some(Users { profile: Some(profile) }) }) => Some(profile),
        _ => None,
    }
}

/// Tells whether the answer holds what the query asks for.
pub fn has_payload(data: &Option<ResponseData>) -> (present: bool)
    ensures
        present == spec_payload(*data) is Some,
{
    match data {
        Some(ResponseData { users: Some(Users { profile: Some(_) }) }) => true,
        _ => false,
    }
}

/// Where the answer holds what the query asks for: read off the path of fields that lead to
/// it; an absent field on the way means the answer does not hold it.
pub proof fn lemma_answer_read(data: ResponseData, users: Users, profile: UserProfile)
    ensures
        spec_payload(None) is None,
        data.users is None ==> spec_payload(Some(data)) is None,
        data.users == Some(users) && users.profile is None ==> spec_payload(Some(data)) is None,
        data.users == Some(users) && users.profile == Some(profile) ==> spec_payload(Some(data)) == Some(profile),
{
}

} // verus!
