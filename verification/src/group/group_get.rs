//! The `GroupGet` query.

use vstd::prelude::*;

use crate::common::Int;
use crate::group::Group;

verus! {

pub struct GroupGet;

pub const OPERATION_NAME: &'static str = "GroupGet";

pub const QUERY: &'static str = "query GroupGet($id: Int!) {\n  groups {\n    single(id: $id) {\n      id\n      name\n      isSystem\n      redirectOnLogin\n      permissions\n      pageRules\n      users\n      createdAt\n      updatedAt\n    }\n  }\n}\n";

#[derive(Debug)]
pub struct Variables {
    pub id: Int,
}

#[derive(Debug)]
pub struct ResponseData {
    pub groups: Option<Groups>,
}

#[derive(Debug)]
pub struct Groups {
    pub single: Option<Group>,
}

/// What the answer asks for, where the answer holds it.
pub open spec fn spec_payload(data: Option<ResponseData>) -> Option<Group> {
    match data {
        Some(ResponseData { groups: Some(Groups { single: Some(single) }) }) => Some(single),
        _ => None,
    }
}

/// Tells whether the answer holds what the query asks for.
pub fn has_payload(data: &Option<ResponseData>) -> (present: bool)
    ensures
        present == spec_payload(*data) is Some,
{
    match data {
        Some(ResponseData { groups: Some(Groups { single: Some(_) }) }) => true,
        _ => false,
    }
}

/// Where the answer holds what the query asks for: read off the path of fields that lead to
/// it; an absent field on the way means the answer does not hold it.
pub proof fn lemma_answer_read(data: ResponseData, groups: Groups, single: Group)
    ensures
        spec_payload(None) is None,
        data.groups is None ==> spec_payload(Some(data)) is None,
        data.groups == Some(groups) && groups.single is None ==> spec_payload(Some(data)) is None,
        data.groups == Some(groups) && groups.single == Some(single) ==> spec_payload(Some(data)) == Some(single),
{
}

} // verus!
