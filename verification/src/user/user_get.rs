//! The `UserGet` query.

use vstd::prelude::*;

use crate::common::Int;
use crate::user::User;

verus! {

pub struct UserGet;

pub const OPERATION_NAME: &'static str = "UserGet";

pub const QUERY: &'static str = "query UserGet($id: Int!) {\n  users {\n    single (id: $id) {\n      id\n      name\n      email\n      providerKey\n      providerName\n      providerId\n      providerIs2FACapable\n      isSystem\n      isActive\n      isVerified\n      location\n      jobTitle\n      timezone\n      dateFormat\n      appearance\n      createdAt\n      updatedAt\n      lastLoginAt\n      tfaIsActive\n      groups {\n        id\n        name\n        isSystem\n        redirectOnLogin\n        permissions\n        pageRules {\n          id\n          deny\n          match\n          roles\n          path\n          locales\n        }\n        users {\n          id\n          name\n          email\n          providerKey\n          isSystem\n          isActive\n          createdAt\n          lastLoginAt\n        }\n        createdAt\n        updatedAt\n      }\n    }\n  }\n}\n";

#[derive(Debug)]
pub struct Variables {
    pub id: Int,
}

#[derive(Debug)]
pub struct ResponseData {
    pub users: Option<Users>,
}

#[derive(Debug)]
pub struct Users {
    pub single: Option<User>,
}

/// What the answer asks for, where the answer holds it.
pub open spec fn spec_payload(data: Option<ResponseData>) -> Option<User> {
    match data {
        Some(ResponseData { users: Some(Users { single: Some(user) }) }) => Some(user),
        _ => None,
    }
}

/// Tells whether the answer holds what the query asks for.
pub fn has_payload(data: &Option<ResponseData>) -> (present: bool)
    ensures
        present == spec_payload(*data) is Some,
{
    match data {
        Some(ResponseData { users: Some(Users { single: Some(_) }) }) => true,
        _ => false,
    }
}

/// Where the answer holds what the query asks for: read off the path of fields that lead to
/// it; an absent field on the way means the answer does not hold it.
pub proof fn lemma_answer_read(data: ResponseData, users: Users, user: User)
    ensures
        spec_payload(None) is None,
        data.users is None ==> spec_payload(Some(data)) is None,
        data.users == Some(users) && users.single is None ==> spec_payload(Some(data)) is None,
        data.users == Some(users) && users.single == Some(user) ==> spec_payload(Some(data)) == Some(user),
{
}

} // verus!
