//! The `GroupUpdate` mutation.

use vstd::prelude::*;

use crate::common::{Int, ResponseStatus};
use crate::group::PageRuleInput;

verus! {

pub struct GroupUpdate;

pub const OPERATION_NAME: &'static str = "GroupUpdate";

pub const QUERY: &'static str = "mutation GroupUpdate(\n  $id: Int!\n  $name: String!\n  $redirectOnLogin: String!\n  $permissions: [String]!\n  $pageRules: [PageRuleInput]!\n) {\n  groups {\n    update(\n      id: $id\n      name: $name\n      redirectOnLogin: $redirectOnLogin\n      permissions: $permissions\n      pageRules: $pageRules \n    ) {\n      responseResult {\n        succeeded\n        errorCode\n        slug\n        message\n      }\n    }\n  }\n}\n";

#[derive(Debug)]
pub struct Variables {
    pub id: Int,
    pub name: String,
    pub redirect_on_login: String,
    pub permissions: Vec<Option<String>>,
    pub page_rules: Vec<Option<PageRuleInput>>,
}

#[derive(Debug)]
pub struct ResponseData {
    pub groups: Option<Groups>,
}

#[derive(Debug)]
pub struct Groups {
    pub update: Option<Update>,
}

#[derive(Debug)]
pub struct Update {
    pub response_result: Option<ResponseStatus>,
}

/// The status of the mutation, where the answer holds it.
pub open spec fn spec_payload(data: Option<ResponseData>) -> Option<ResponseStatus> {
    match data {
        Some(ResponseData { groups: Some(Groups { update: Some(Update { response_result: Some(response_result) }) }) }) => Some(response_result),
        _ => None,
    }
}

/// Tells whether the answer holds the status of the mutation.
pub fn has_payload(data: &Option<ResponseData>) -> (present: bool)
    ensures
        present == spec_payload(*data) is Some,
{
    match data {
        Some(ResponseData { groups: Some(Groups { update: Some(Update { response_result: Some(_) }) }) }) => true,
        _ => false,
    }
}

/// Where the answer holds the status of the mutation: read off the path of fields that lead to
/// it; an absent field on the way means the answer does not hold it.
pub proof fn lemma_answer_read(data: ResponseData, groups: Groups, update: Update, response_result: ResponseStatus)
    ensures
        spec_payload(None) is None,
        data.groups is None ==> spec_payload(Some(data)) is None,
        data.groups == Some(groups) && groups.update is None ==> spec_payload(Some(data)) is None,
        data.groups == Some(groups) && groups.update == Some(update) && update.response_result is None ==> spec_payload(Some(data)) is None,
        data.groups == Some(groups) && groups.update == Some(update) && update.response_result == Some(response_result) ==> spec_payload(Some(data)) == Some(response_result),
{
}

} // verus!
