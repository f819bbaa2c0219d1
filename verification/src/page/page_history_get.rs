//! The `PageHistoryGet` query.

use vstd::prelude::*;

use crate::common::Int;
use crate::page::PageHistoryResult;

verus! {

pub struct PageHistoryGet;

pub const OPERATION_NAME: &'static str = "PageHistoryGet";

pub const QUERY: &'static str = "query PageHistoryGet(\n  $id: Int!\n  $offsetPage: Int\n  $offsetSize: Int\n) {\n  pages {\n    history(\n      id: $id\n      offsetPage: $offsetPage\n      offsetSize: $offsetSize\n    ) {\n      trail {\n        versionId\n        versionDate\n        authorId\n        authorName\n        actionType\n        valueBefore\n        valueAfter\n      }\n      total\n    }\n  }\n}\n";

#[derive(Debug)]
pub struct Variables {
    pub id: Int,
    pub offset_page: Option<Int>,
    pub offset_size: Option<Int>,
}

#[derive(Debug)]
pub struct ResponseData {
    pub pages: Option<Pages>,
}

#[derive(Debug)]
pub struct Pages {
    pub history: Option<PageHistoryResult>,
}

/// What the answer asks for, where the answer holds it.
pub open spec fn spec_payload(data: Option<ResponseData>) -> Option<PageHistoryResult> {
    match data {
        Some(ResponseData { pages: Some(Pages { history: Some(history) }) }) => Some(history),
        _ => None,
    }
}

/// Tells whether the answer holds what the query asks for.
pub fn has_payload(data: &Option<ResponseData>) -> (present: bool)
    ensures
        present == spec_payload(*data) is Some,
{
    match data {
        Some(ResponseData { pages: Some(Pages { history: Some(_) }) }) => true,
        _ => false,
    }
}

/// Where the answer holds what the query asks for: read off the path of fields that lead to
/// it; an absent field on the way means the answer does not hold it.
pub proof fn lemma_answer_read(data: ResponseData, pages: Pages, history: PageHistoryResult)
    ensures
        spec_payload(None) is None,
        data.pages is None ==> spec_payload(Some(data)) is None,
        data.pages == Some(pages) && pages.history is None ==> spec_payload(Some(data)) is None,
        data.pages == Some(pages) && pages.history == Some(history) ==> spec_payload(Some(data)) == Some(history),
{
}

} // verus!
