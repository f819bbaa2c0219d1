//! The `PageTreeRebuild` mutation.

use vstd::prelude::*;

use crate::common::ResponseStatus;

verus! {

pub struct PageTreeRebuild;

pub const OPERATION_NAME: &'static str = "PageTreeRebuild";

pub const QUERY: &'static str = "mutation PageTreeRebuild {\n  pages {\n    rebuildTree {\n      responseResult {\n        succeeded\n        errorCode\n        slug\n        message\n      }\n    }\n  }\n}\n";

#[derive(Debug)]
pub struct Variables;

#[derive(Debug)]
pub struct ResponseData {
    pub pages: Option<Pages>,
}

#[derive(Debug)]
pub struct Pages {
    pub rebuild_tree: Option<RebuildTree>,
}

#[derive(Debug)]
pub struct RebuildTree {
    pub response_result: Option<ResponseStatus>,
}

/// The status of the mutation, where the answer holds it.
pub open spec fn spec_payload(data: Option<ResponseData>) -> Option<ResponseStatus> {
    match data {
        Some(ResponseData { pages: Some(Pages { rebuild_tree: Some(RebuildTree { response_result: Some(response_result) }) }) }) => Some(response_result),
        _ => None,
    }
}

/// Tells whether the answer holds the status of the mutation.
pub fn has_payload(data: &Option<ResponseData>) -> (present: bool)
    ensures
        present == spec_payload(*data) is Some,
{
    match data {
        Some(ResponseData { pages: Some(Pages { rebuild_tree: Some(RebuildTree { response_result: Some(_) }) }) }) => true,
        _ => false,
    }
}

/// Where the answer holds the status of the mutation: read off the path of fields that lead to
/// it; an absent field on the way means the answer does not hold it.
pub proof fn lemma_answer_read(data: ResponseData, pages: Pages, rebuild_tree: RebuildTree, response_result: ResponseStatus)
    ensures
        spec_payload(None) is None,
        data.pages is None ==> spec_payload(Some(data)) is None,
        data.pages == Some(pages) && pages.rebuild_tree is None ==> spec_payload(Some(data)) is None,
        data.pages == Some(pages) && pages.rebuild_tree == Some(rebuild_tree) && rebuild_tree.response_result is None ==> spec_payload(Some(data)) is None,
        data.pages == Some(pages) && pages.rebuild_tree == Some(rebuild_tree) && rebuild_tree.response_result == Some(response_result) ==> spec_payload(Some(data)) == Some(response_result),
{
}

} // verus!
