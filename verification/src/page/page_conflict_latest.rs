//! The `PageConflictLatest` query.

use vstd::prelude::*;

use crate::common::Int;
use crate::page::PageConflictLatest;

verus! {

pub struct PageConflictLatestFunction;

pub const OPERATION_NAME: &'static str = "PageConflictLatest";

pub const QUERY: &'static str = "query PageConflictLatest (\n  $id: Int!\n) {\n  pages {\n    conflictLatest (\n      id: $id\n    ) {\n      id\n      authorId\n      authorName\n      content\n      createdAt\n      description\n      isPublished\n      locale\n      path\n      tags\n      title\n      updatedAt\n    }\n  }\n}\n";

#[derive(Debug)]
pub struct Variables {
    pub id: Int,
}

#[derive(Debug)]
pub struct ResponseData {
    pub pages: Option<Pages>,
}

#[derive(Debug)]
pub struct Pages {
    pub conflict_latest: PageConflictLatest,
}

/// What the answer asks for, where the answer holds it.
pub open spec fn spec_payload(data: Option<ResponseData>) -> Option<PageConflictLatest> {
    match data {
        Some(ResponseData { pages: Some(Pages { conflict_latest }) }) => Some(conflict_latest),
        _ => None,
    }
}

/// Tells whether the answer holds what the query asks for.
pub fn has_payload(data: &Option<ResponseData>) -> (present: bool)
    ensures
        present == spec_payload(*data) is Some,
{
    match data {
        Some(ResponseData { pages: Some(Pages { conflict_latest: _ }) }) => true,
        _ => false,
    }
}

/// Where the answer holds what the query asks for: read off the path of fields that lead to
/// it; an absent field on the way means the answer does not hold it.
pub proof fn lemma_answer_read(data: ResponseData, pages: Pages)
    ensures
        spec_payload(None) is None,
        data.pages is None ==> spec_payload(Some(data)) is None,
        data.pages == Some(pages) ==> spec_payload(Some(data)) == Some(pages.conflict_latest),
{
}

} // verus!
