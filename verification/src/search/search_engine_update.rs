//! The `SearchEngineUpdate` mutation.

use vstd::prelude::*;

use crate::common::ResponseStatus;
use crate::search::SearchEngineInput;

verus! {

pub struct SearchEngineUpdate;

pub const OPERATION_NAME: &'static str = "SearchEngineUpdate";

pub const QUERY: &'static str = "mutation SearchEngineUpdate($engines: [SearchEngineInput]) {\n  search {\n    updateSearchEngines(engines: $engines) {\n      responseResult {\n        succeeded\n        errorCode\n        slug\n        message\n      }\n    }\n  }\n}\n";

#[derive(Debug)]
pub struct Variables {
    pub engines: Option<Vec<Option<SearchEngineInput>>>,
}

#[derive(Debug)]
pub struct ResponseData {
    pub search: Option<Search>,
}

#[derive(Debug)]
pub struct Search {
    pub update_search_engines: Option<UpdateSearchEngines>,
}

#[derive(Debug)]
pub struct UpdateSearchEngines {
    pub response_result: Option<ResponseStatus>,
}

/// The status of the mutation, where the answer holds it.
pub open spec fn spec_payload(data: Option<ResponseData>) -> Option<ResponseStatus> {
    match data {
        Some(ResponseData { search: Some(Search { update_search_engines: Some(UpdateSearchEngines { response_result: Some(response_result) }) }) }) => Some(response_result),
        _ => None,
    }
}

/// Tells whether the answer holds the status of the mutation.
pub fn has_payload(data: &Option<ResponseData>) -> (present: bool)
    ensures
        present == spec_payload(*data) is Some,
{
    match data {
        Some(ResponseData { search: Some(Search { update_search_engines: Some(UpdateSearchEngines { response_result: Some(_) }) }) }) => true,
        _ => false,
    }
}

/// Where the answer holds the status of the mutation: read off the path of fields that lead to
/// it; an absent field on the way means the answer does not hold it.
pub proof fn lemma_answer_read(data: ResponseData, search: Search, update_search_engines: UpdateSearchEngines, response_result: ResponseStatus)
    ensures
        spec_payload(None) is None,
        data.search is None ==> spec_payload(Some(data)) is None,
        data.search == Some(search) && search.update_search_engines is None ==> spec_payload(Some(data)) is None,
        data.search == Some(search) && search.update_search_engines == Some(update_search_engines) && update_search_engines.response_result is None ==> spec_payload(Some(data)) is None,
        data.search == Some(search) && search.update_search_engines == Some(update_search_engines) && update_search_engines.response_result == Some(response_result) ==> spec_payload(Some(data)) == Some(response_result),
{
}

} // verus!
