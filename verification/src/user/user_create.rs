//! The `UserCreate` mutation.

use vstd::prelude::*;

use crate::common::{Boolean, Int, ResponseStatus};
use crate::user::UserResponse;

verus! {

pub struct UserCreate;

pub const OPERATION_NAME: &'static str = "UserCreate";

pub const QUERY: &'static str = "mutation UserCreate(\n  $email: String!\n  $name: String!\n  $passwordRaw: String\n  $providerKey: String!\n  $groups: [Int]!\n  $mustChangePassword: Boolean\n  $sendWelcomeEmail: Boolean\n) {\n  users {\n    create (\n      email: $email\n      name: $name\n      passwordRaw: $passwordRaw\n      providerKey: $providerKey\n      groups: $groups\n      mustChangePassword: $mustChangePassword\n      sendWelcomeEmail: $sendWelcomeEmail\n    ) {\n      responseResult {\n        succeeded\n        errorCode\n        slug\n        message\n      }\n      user {\n        id\n        name\n        email\n        providerKey\n        providerName\n        providerId\n        providerIs2FACapable\n        isSystem\n        isActive\n        isVerified\n        location\n        jobTitle\n        timezone\n        dateFormat\n        appearance\n        createdAt\n        updatedAt\n        lastLoginAt\n        tfaIsActive\n        groups {\n          id\n          name\n          isSystem\n          redirectOnLogin\n          permissions\n          pageRules {\n            id\n            deny\n            match\n            roles\n            path\n            locales\n          }\n          users {\n            id\n            name\n            email\n            providerKey\n            isSystem\n            isActive\n            createdAt\n            lastLoginAt\n          }\n          createdAt\n          updatedAt\n        }\n      }\n    }\n  }\n}\n";

#[derive(Debug)]
pub struct Variables {
    pub email: String,
    pub name: String,
    pub password_raw: Option<String>,
    pub provider_key: String,
    pub groups: Vec<Option<Int>>,
    pub must_change_password: Option<Boolean>,
    pub send_welcome_email: Option<Boolean>,
}

#[derive(Debug)]
pub struct ResponseData {
    pub users: Option<Users>,
}

#[derive(Debug)]
pub struct Users {
    pub create: Option<UserResponse>,
}

/// The status of the mutation, where the answer holds it.
pub open spec fn spec_payload(data: Option<ResponseData>) -> Option<ResponseStatus> {
    match data {
        Some(ResponseData { users: Some(Users { create: Some(UserResponse { response_result: status, .. }) }) }) => Some(status),
        _ => None,
    }
}

/// Tells whether the answer holds the status of the mutation.
pub fn has_payload(data: &Option<ResponseData>) -> (present: bool)
    ensures
        present == spec_payload(*data) is Some,
{
    match data {
        Some(ResponseData { users: Some(Users { create: Some(UserResponse { response_result: _, .. }) }) }) => true,
        _ => false,
    }
}

/// Where the answer holds the status of the mutation: read off the path of fields that lead to
/// it; an absent field on the way means the answer does not hold it.
pub proof fn lemma_answer_read(data: ResponseData, users: Users, create: UserResponse)
    ensures
        spec_payload(None) is None,
        data.users is None ==> spec_payload(Some(data)) is None,
        data.users == Some(users) && users.create is None ==> spec_payload(Some(data)) is None,
        data.users == Some(users) && users.create == Some(create) ==> spec_payload(Some(data)) == Some(create.response_result),
{
}

} // verus!
