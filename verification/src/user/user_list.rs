//! The `UserList` query.

use vstd::prelude::*;

use crate::user::UserMinimal;

verus! {

pub struct UserList;

pub const OPERATION_NAME: &'static str = "UserList";

pub const QUERY: &'static str = "query UserList($filter: String, $orderBy: String) {\n  users {\n    list (filter: $filter, orderBy: $orderBy) {\n      id\n      name\n      email providerKey\n      isSystem\n      isActive\n      createdAt\n      lastLoginAt\n    }\n  }\n}\n";

#[derive(Debug)]
pub struct Variables {
    pub filter: Option<String>,
    pub order_by: Option<String>,
}

#[derive(Debug)]
pub struct ResponseData {
    pub users: Option<Users>,
}

#[derive(Debug)]
pub struct Users {
    pub list: Option<Vec<Option<UserMinimal>>>,
}

/// The listed items, where the answer holds them.
pub open spec fn spec_payload(data: Option<ResponseData>) -> Option<Vec<Option<UserMinimal>>> {
    match data {
        Some(ResponseData { users: Some(Users { list: Some(list) }) }) => Some(list),
        _ => None,
    }
}

/// Tells whether the answer holds the listed items.
pub fn has_payload(data: &Option<ResponseData>) -> (present: bool)
    ensures
        present == spec_payload(*data) is Some,
{
    match data {
        Some(ResponseData { users: Some(Users { list: Some(_) }) }) => true,
        _ => false,
    }
}

/// Where the answer holds the listed items: read off the path of fields that lead to
/// it; an absent field on the way means the answer does not hold it.
pub proof fn lemma_answer_read(data: ResponseData, users: Users, list: Vec<Option<UserMinimal>>)
    ensures
        spec_payload(None) is None,
        data.users is None ==> spec_payload(Some(data)) is None,
        data.users == Some(users) && users.list is None ==> spec_payload(Some(data)) is None,
        data.users == Some(users) && users.list == Some(list) ==> spec_payload(Some(data)) == Some(list),
{
}

} // verus!
