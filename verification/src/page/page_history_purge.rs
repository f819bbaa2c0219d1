//! The `PageHistoryPurge` mutation.

use vstd::prelude::*;

use crate::common::ResponseStatus;

verus! {

pub struct PageHistoryPurge;

pub const OPERATION_NAME: &'static str = "PageHistoryPurge";

pub const QUERY: &'static str = "mutation PageHistoryPurge(\n  $olderThan: String!\n) {\n  pages {\n    purgeHistory (\n      olderThan: $olderThan\n    ) {\n      responseResult {\n        succeeded\n        errorCode\n        slug\n        message\n      }\n    }\n  }\n}\n";

#[derive(Debug)]
pub struct Variables {
    pub older_than: String,
}

#[derive(Debug)]
pub struct ResponseData {
    pub pages: Option<Pages>,
}

#[derive(Debug)]
pub struct Pages {
    pub purge_history: Option<PurgeHistory>,
}

#[derive(Debug)]
pub struct PurgeHistory {
    pub response_result: Option<ResponseStatus>,
}

/// The status of the mutation, where the answer holds it.
pub open spec fn spec_payload(data: Option<ResponseData>) -> Option<ResponseStatus> {
    match data {
        Some(ResponseData { pages: Some(Pages { purge_history: Some(PurgeHistory { response_result: Some(response_result) }) }) }) => Some(response_result),
        _ => None,
    }
}

/// Tells whether the answer holds the status of the mutation.
pub fn has_payload(data: &Option<ResponseData>) -> (present: bool)
    ensures
        present == spec_payload(*data) is Some,
{
    match data {
        Some(ResponseData { pages: Some(Pages { purge_history: Some(PurgeHistory { response_result: Some(_) }) }) }) => true,
        _ => false,
    }
}

/// Where the answer holds the status of the mutation: read off the path of fields that lead to
/// it; an absent field on the way means the answer does not hold it.
pub proof fn lemma_answer_read(data: ResponseData, pages: Pages, purge_history: PurgeHistory, response_result: ResponseStatus)
    ensures
        spec_payload(None) is None,
        data.pages is None ==> spec_payload(Some(data)) is None,
        data.pages == Some(pages) && pages.purge_history is None ==> spec_payload(Some(data)) is None,
        data.pages == Some(pages) && pages.purge_history == Some(purge_history) && purge_history.response_result is None ==> spec_payload(Some(data)) is None,
        data.pages == Some(pages) && pages.purge_history == Some(purge_history) && purge_history.response_result == Some(response_result) ==> spec_payload(Some(data)) == Some(response_result),
{
}

} // verus!
