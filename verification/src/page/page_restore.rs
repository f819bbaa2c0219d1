//! The `PageRestore` mutation.

use vstd::prelude::*;

use crate::common::{Int, ResponseStatus};

verus! {

pub struct PageRestore;

pub const OPERATION_NAME: &'static str = "PageRestore";

pub const QUERY: &'static str = "mutation PageRestore(\n  $pageId: Int!\n  $versionId: Int!\n) {\n  pages {\n    restore (\n      pageId: $pageId\n      versionId: $versionId \n    ) {\n      responseResult {\n        succeeded\n        errorCode\n        slug\n        message\n      }\n    }\n  }\n}\n";

#[derive(Debug)]
pub struct Variables {
    pub page_id: Int,
    pub version_id: Int,
}

#[derive(Debug)]
pub struct ResponseData {
    pub pages: Option<Pages>,
}

#[derive(Debug)]
pub struct Pages {
    pub restore: Option<Restore>,
}

#[derive(Debug)]
pub struct Restore {
    pub response_result: Option<ResponseStatus>,
}

/// The status of the mutation, where the answer holds it.
pub open spec fn spec_payload(data: Option<ResponseData>) -> Option<ResponseStatus> {
    match data {
        Some(ResponseData { pages: Some(Pages { restore: Some(Restore { response_result: Some(response_result) }) }) }) => Some(response_result),
        _ => None,
    }
}

/// Tells whether the answer holds the status of the mutation.
pub fn has_payload(data: &Option<ResponseData>) -> (present: bool)
    ensures
        present == spec_payload(*data) is Some,
{
    match data {
        Some(ResponseData { pages: Some(Pages { restore: Some(Restore { response_result: Some(_) }) }) }) => true,
        _ => false,
    }
}

/// Where the answer holds the status of the mutation: read off the path of fields that lead to
/// it; an absent field on the way means the answer does not hold it.
pub proof fn lemma_answer_read(data: ResponseData, pages: Pages, restore: Restore, response_result: ResponseStatus)
    ensures
        spec_payload(None) is None,
        data.pages is None ==> spec_payload(Some(data)) is None,
        data.pages == Some(pages) && pages.restore is None ==> spec_payload(Some(data)) is None,
        data.pages == Some(pages) && pages.restore == Some(restore) && restore.response_result is None ==> spec_payload(Some(data)) is None,
        data.pages == Some(pages) && pages.restore == Some(restore) && restore.response_result == Some(response_result) ==> spec_payload(Some(data)) == Some(response_result),
{
}

} // verus!
