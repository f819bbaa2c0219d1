//! The `GroupCreate` mutation.

use vstd::prelude::*;

use crate::common::ResponseStatus;
use crate::group::GroupResponse;

verus! {

pub struct GroupCreate;

pub const OPERATION_NAME: &'static str = "GroupCreate";

pub const QUERY: &'static str = "mutation GroupCreate($name: String!) {\n  groups {\n    create(name: $name) {\n      responseResult {\n        succeeded\n        errorCode\n        slug\n        message\n      }\n      group {\n        id\n        name\n        isSystem\n        redirectOnLogin\n        permissions\n        pageRules\n        users\n        createdAt\n        updatedAt\n      }\n    }\n  }\n}\n";

#[derive(Debug)]
pub struct Variables {
    pub name: String,
}

#[derive(Debug)]
pub struct ResponseData {
    pub groups: Option<Groups>,
}

#[derive(Debug)]
pub struct Groups {
    pub create: Option<GroupResponse>,
}

/// The status of the mutation, where the answer holds it.
pub open spec fn spec_payload(data: Option<ResponseData>) -> Option<ResponseStatus> {
    match data {
        Some(ResponseData { groups: Some(Groups { create: Some(GroupResponse { response_result: status, .. }) }) }) => Some(status),
        _ => None,
    }
}

/// Tells whether the answer holds the status of the mutation.
pub fn has_payload(data: &Option<ResponseData>) -> (present: bool)
    ensures
        present == spec_payload(*data) is Some,
{
    match data {
        Some(ResponseData { groups: Some(Groups { create: Some(GroupResponse { response_result: _, .. }) }) }) => true,
        _ => false,
    }
}

/// Where the answer holds the status of the mutation: read off the path of fields that lead to
/// it; an absent field on the way means the answer does not hold it.
pub proof fn lemma_answer_read(data: ResponseData, groups: Groups, create: GroupResponse)
    ensures
        spec_payload(None) is None,
        data.groups is None ==> spec_payload(Some(data)) is None,
        data.groups == Some(groups) && groups.create is None ==> spec_payload(Some(data)) is None,
        data.groups == Some(groups) && groups.create == Some(create) ==> spec_payload(Some(data)) == Some(create.response_result),
{
}

} // verus!
