//! The `NavigationTreeUpdate` mutation.

use vstd::prelude::*;

use crate::common::ResponseStatus;
use crate::navigation::NavigationTreeInput;

verus! {

pub struct NavigationTreeUpdate;

pub const OPERATION_NAME: &'static str = "NavigationTreeUpdate";

pub const QUERY: &'static str = "mutation NavigationTreeUpdate (\n  $tree: [NavigationTreeInput]!\n) { \n  navigation {\n    updateTree(tree: $tree) {\n      responseResult {\n        succeeded\n        errorCode\n        slug\n        message\n      }\n    }\n  }\n}\n";

#[derive(Debug)]
pub struct Variables {
    pub tree: Vec<Option<NavigationTreeInput>>,
}

#[derive(Debug)]
pub struct ResponseData {
    pub navigation: Option<Navigation>,
}

#[derive(Debug)]
pub struct Navigation {
    pub update_tree: Option<UpdateTree>,
}

#[derive(Debug)]
pub struct UpdateTree {
    pub response_result: Option<ResponseStatus>,
}

/// The status of the mutation, where the answer holds it.
pub open spec fn spec_payload(data: Option<ResponseData>) -> Option<ResponseStatus> {
    match data {
        Some(ResponseData { navigation: Some(Navigation { update_tree: Some(UpdateTree { response_result: Some(response_result) }) }) }) => Some(response_result),
        _ => None,
    }
}

/// Tells whether the answer holds the status of the mutation.
pub fn has_payload(data: &Option<ResponseData>) -> (present: bool)
    ensures
        present == spec_payload(*data) is Some,
{
    match data {
        Some(ResponseData { navigation: Some(Navigation { update_tree: Some(UpdateTree { response_result: Some(_) }) }) }) => true,
        _ => false,
    }
}

/// Where the answer holds the status of the mutation: read off the path of fields that lead to
/// it; an absent field on the way means the answer does not hold it.
pub proof fn lemma_answer_read(data: ResponseData, navigation: Navigation, update_tree: UpdateTree, response_result: ResponseStatus)
    ensures
        spec_payload(None) is None,
        data.navigation is None ==> spec_payload(Some(data)) is None,
        data.navigation == Some(navigation) && navigation.update_tree is None ==> spec_payload(Some(data)) is None,
        data.navigation == Some(navigation) && navigation.update_tree == Some(update_tree) && update_tree.response_result is None ==> spec_payload(Some(data)) is None,
        data.navigation == Some(navigation) && navigation.update_tree == Some(update_tree) && update_tree.response_result == Some(response_result) ==> spec_payload(Some(data)) == Some(response_result),
{
}

} // verus!
