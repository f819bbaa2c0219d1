//! The `SearchEngineIndexRebuild` mutation.

use vstd::prelude::*;

use crate::common::ResponseStatus;

verus! {

pub struct SearchEngineIndexRebuild;

pub const OPERATION_NAME: &'static str = "SearchEngineIndexRebuild";

pub const QUERY: &'static str = "mutation SearchEngineIndexRebuild {\n  search {\n    rebuildIndex {\n      responseResult {\n        succeeded\n        errorCode\n        slug\n        message\n      }\n    }\n  }\n}\n";

#[derive(Debug)]
pub struct Variables;

#[derive(Debug)]
pub struct ResponseData {
    pub search: Option<Search>,
}

#[derive(Debug)]
pub struct Search {
    pub rebuild_index: Option<RebuildIndex>,
}

#[derive(Debug)]
pub struct RebuildIndex {
    pub response_result: Option<ResponseStatus>,
}

/// The status of the mutation, where the answer holds it.
pub open spec fn spec_payload(data: Option<ResponseData>) -> Option<ResponseStatus> {
    match data {
        Some(ResponseData { search: Some(Search { rebuild_index: Some(RebuildIndex { response_result: Some(response_result) }) }) }) => Some(response_result),
        _ => None,
    }
}

/// Tells whether the answer holds the status of the mutation.
pub fn has_payload(data: &Option<ResponseData>) -> (present: bool)
    ensures
        present == spec_payload(*data) is Some,
{
    match data {
        Some(ResponseData { search: Some(Search { rebuild_index: Some(RebuildIndex { response_result: Some(_) }) }) }) => true,
        _ => false,
    }
}

/// Where the answer holds the status of the mutation: read off the path of fields that lead to
/// it; an absent field on the way means the answer does not hold it.
pub proof fn lemma_answer_read(data: ResponseData, search: Search, rebuild_index: RebuildIndex, response_result: ResponseStatus)
    ensures
        spec_payload(None) is None,
        data.search is None ==> spec_payload(Some(data)) is None,
        data.search == Some(search) && search.rebuild_index is None ==> spec_payload(Some(data)) is None,
        data.search == Some(search) && search.rebuild_index == Some(rebuild_index) && rebuild_index.response_result is None ==> spec_payload(Some(data)) is None,
        data.search == Some(search) && search.rebuild_index == Some(rebuild_index) && rebuild_index.response_result == Some(response_result) ==> spec_payload(Some(data)) == Some(response_result),
{
}

} // verus!
