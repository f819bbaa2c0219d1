//! The `PageList` query.

use vstd::prelude::*;

use crate::common::Int;
use crate::page::{PageListItem, PageOrderBy, PageOrderByDirection};

verus! {

pub struct PageList;

pub const OPERATION_NAME: &'static str = "PageList";

pub const QUERY: &'static str = "query PageList(\n  $limit: Int\n  $orderBy: PageOrderBy\n  $orderByDirection: PageOrderByDirection\n  $tags: [String!]\n  $locale: String\n  $creatorId: Int\n  $authorId: Int\n) {\n  pages {\n    list (\n      limit: $limit\n      orderBy: $orderBy\n      orderByDirection: $orderByDirection\n      tags: $tags\n      locale: $locale\n      creatorId: $creatorId\n      authorId: $authorId\n    ) {\n      id\n      path\n      locale\n      title\n      description\n      contentType\n      isPublished\n      isPrivate\n      privateNS\n      createdAt\n      updatedAt\n      tags\n    }\n  }\n}\n";

#[derive(Debug)]
pub struct Variables {
    pub limit: Option<Int>,
    pub order_by: Option<PageOrderBy>,
    pub order_by_direction: Option<PageOrderByDirection>,
    pub tags: Option<Vec<String>>,
    pub locale: Option<String>,
    pub creator_id: Option<Int>,
    pub author_id: Option<Int>,
}

#[derive(Debug)]
pub struct ResponseData {
    pub pages: Option<Pages>,
}

#[derive(Debug)]
pub struct Pages {
    pub list: Vec<PageListItem>,
}

/// What the answer asks for, where the answer holds it.
pub open spec fn spec_payload(data: Option<ResponseData>) -> Option<Vec<PageListItem>> {
    match data {
        Some(ResponseData { pages: Some(Pages { list }) }) => Some(list),
        _ => None,
    }
}

/// Tells whether the answer holds what the query asks for.
pub fn has_payload(data: &Option<ResponseData>) -> (present: bool)
    ensures
        present == spec_payload(*data) is Some,
{
    match data {
        Some(ResponseData { pages: Some(Pages { list: _ }) }) => true,
        _ => false,
    }
}

/// Where the answer holds what the query asks for: read off the path of fields that lead to
/// it; an absent field on the way means the answer does not hold it.
pub proof fn lemma_answer_read(data: ResponseData, pages: Pages)
    ensures
        spec_payload(None) is None,
        data.pages is None ==> spec_payload(Some(data)) is None,
        data.pages == Some(pages) ==> spec_payload(Some(data)) == Some(pages.list),
{
}

} // verus!
