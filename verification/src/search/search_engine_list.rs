//! The `SearchEngineList` query.

use vstd::prelude::*;

use crate::search::SearchEngine;

verus! {

pub struct SearchEngineList;

pub const OPERATION_NAME: &'static str = "SearchEngineList";

pub const QUERY: &'static str = "query SearchEngineList($filter: String, $orderBy: String) {\n  search {\n    searchEngines(filter: $filter, orderBy: $orderBy) {\n      isEnabled\n      key\n      title\n      description\n      logo\n      website\n      isAvailable\n      config {\n        key\n        value\n      }\n    }\n  }\n}\n";

#[derive(Debug)]
pub struct Variables {
    pub filter: Option<String>,
    pub order_by: Option<String>,
}

#[derive(Debug)]
pub struct ResponseData {
    pub search: Option<SearchEngineListSearch>,
}

#[derive(Debug)]
pub struct SearchEngineListSearch {
    pub search_engines: Option<Vec<Option<SearchEngine>>>,
}

/// The listed items, where the answer holds them.
pub open spec fn spec_payload(data: Option<ResponseData>) -> Option<Vec<Option<SearchEngine>>> {
    match data {
        Some(ResponseData { search: Some(SearchEngineListSearch { search_engines: Some(search_engines) }) }) => Some(search_engines),
        _ => None,
    }
}

/// Tells whether the answer holds the listed items.
pub fn has_payload(data: &Option<ResponseData>) -> (present: bool)
    ensures
        present == spec_payload(*data) is Some,
{
    match data {
        Some(ResponseData { search: Some(SearchEngineListSearch { search_engines: Some(_) }) }) => true,
        _ => false,
    }
}

/// Where the answer holds the listed items: read off the path of fields that lead to
/// it; an absent field on the way means the answer does not hold it.
pub proof fn lemma_answer_read(data: ResponseData, search: SearchEngineListSearch, search_engines: Vec<Option<SearchEngine>>)
    ensures
        spec_payload(None) is None,
        data.search is None ==> spec_payload(Some(data)) is None,
        data.search == Some(search) && search.search_engines is None ==> spec_payload(Some(data)) is None,
        data.search == Some(search) && search.search_engines == Some(search_engines) ==> spec_payload(Some(data)) == Some(search_engines),
{
}

} // verus!
