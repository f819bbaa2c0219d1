//! The `UserLastLoginList` query.

use vstd::prelude::*;

use crate::user::UserLastLogin;

verus! {

pub struct UserLastLoginList;

pub const OPERATION_NAME: &'static str = "UserLastLoginList";

pub const QUERY: &'static str = "query UserLastLoginList {\n  users {\n    lastLogins {\n      id\n      name\n      lastLoginAt\n    }\n  }\n}\n";

#[derive(Debug)]
pub struct Variables;

#[derive(Debug)]
pub struct ResponseData {
    pub users: Option<Users>,
}

#[derive(Debug)]
pub struct Users {
    pub last_logins: Option<Vec<Option<UserLastLogin>>>,
}

/// The listed items, where the answer holds them.
pub open spec fn spec_payload(data: Option<ResponseData>) -> Option<Vec<Option<UserLastLogin>>> {
    match data {
        Some(ResponseData { users: Some(Users { last_logins: Some(last_logins) }) }) => Some(last_logins),
        _ => None,
    }
}

/// Tells whether the answer holds the listed items.
pub fn has_payload(data: &Option<ResponseData>) -> (present: bool)
    ensures
        present == spec_payload(*data) is Some,
{
    match data {
        Some(ResponseData { users: Some(Users { last_logins: Some(_) }) }) => true,
        _ => false,
    }
}

/// Where the answer holds the listed items: read off the path of fields that lead to
/// it; an absent field on the way means the answer does not hold it.
pub proof fn lemma_answer_read(data: ResponseData, users: Users, last_logins: Vec<Option<UserLastLogin>>)
    ensures
        spec_payload(None) is None,
        data.users is None ==> spec_payload(Some(data)) is None,
        data.users == Some(users) && users.last_logins is None ==> spec_payload(Some(data)) is None,
        data.users == Some(users) && users.last_logins == Some(last_logins) ==> spec_payload(Some(data)) == Some(last_logins),
{
}

} // verus!
