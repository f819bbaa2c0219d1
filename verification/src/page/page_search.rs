//! The `PageSearch` query.

use vstd::prelude::*;

use crate::page::PageSearchResponse;

verus! {

pub struct PageSearch;

pub const OPERATION_NAME: &'static str = "PageSearch";

pub const QUERY: &'static str = "query PageSearch(\n  $query: String!\n  $path: String\n  $locale: String\n) {\n  pages {\n    search(\n      query: $query\n      path: $path\n      locale: $locale\n    ) {\n      results {\n        id\n        title\n        description\n        path\n        locale\n      }\n      suggestions\n      totalHits\n    }\n  }\n}\n";

#[derive(Debug)]
pub struct Variables {
    pub query: String,
    pub path: Option<String>,
    pub locale: Option<String>,
}

#[derive(Debug)]
pub struct ResponseData {
    pub pages: Option<Pages>,
}

#[derive(Debug)]
pub struct Pages {
    pub search: PageSearchResponse,
}

/// What the answer asks for, where the answer holds it.
pub open spec fn spec_payload(data: Option<ResponseData>) -> Option<PageSearchResponse> {
    match data {
        Some(ResponseData { pages: Some(Pages { search }) }) => Some(search),
        _ => None,
    }
}

/// Tells whether the answer holds what the query asks for.
pub fn has_payload(data: &Option<ResponseData>) -> (present: bool)
    ensures
        present == spec_payload(*data) is Some,
{
    match data {
        Some(ResponseData { pages: Some(Pages { search: _ }) }) => true,
        _ => false,
    }
}

/// Where the answer holds what the query asks for: read off the path of fields that lead to
/// it; an absent field on the way means the answer does not hold it.
pub proof fn lemma_answer_read(data: ResponseData, pages: Pages)
    ensures
        spec_payload(None) is None,
        data.pages is None ==> spec_payload(Some(data)) is None,
        data.pages == Some(pages) ==> spec_payload(Some(data)) == Some(pages.search),
{
}

} // verus!
