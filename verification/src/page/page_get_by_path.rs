//! The `PageGetByPath` query.

use vstd::prelude::*;

use crate::page::Page;

verus! {

pub struct PageGetByPath;

pub const OPERATION_NAME: &'static str = "PageGetByPath";

pub const QUERY: &'static str = "query PageGetByPath($path: String!, $locale: String!) {\n  pages {\n    singleByPath (path: $path, locale: $locale) {\n      id\n      path\n      hash\n      title\n      description\n      isPrivate\n      isPublished\n      privateNS\n      publishStartDate\n      publishEndDate\n      tags {\n        id\n        tag\n        title\n        createdAt\n        updatedAt\n      }\n      content\n      render\n      toc\n      contentType\n      createdAt\n      updatedAt\n      editor\n      locale\n      scriptCss\n      scriptJs\n      authorId\n      authorName\n      authorEmail\n      creatorId\n      creatorName\n      creatorEmail\n    }\n  }\n}\n";

#[derive(Debug)]
pub struct Variables {
    pub path: String,
    pub locale: String,
}

#[derive(Debug)]
pub struct ResponseData {
    pub pages: Option<Pages>,
}

#[derive(Debug)]
pub struct Pages {
    pub single_by_path: Option<Page>,
}

/// What the answer asks for, where the answer holds it.
pub open spec fn spec_payload(data: Option<ResponseData>) -> Option<Page> {
    match data {
        Some(ResponseData { pages: Some(Pages { single_by_path: Some(page) }) }) => Some(page),
        _ => None,
    }
}

/// Tells whether the answer holds what the query asks for.
pub fn has_payload(data: &Option<ResponseData>) -> (present: bool)
    ensures
        present == spec_payload(*data) is Some,
{
    match data {
        Some(ResponseData { pages: Some(Pages { single_by_path: Some(_) }) }) => true,
        _ => false,
    }
}

/// Where the answer holds what the query asks for: read off the path of fields that lead to
/// it; an absent field on the way means the answer does not hold it.
pub proof fn lemma_answer_read(data: ResponseData, pages: Pages, page: Page)
    ensures
        spec_payload(None) is None,
        data.pages is None ==> spec_payload(Some(data)) is None,
        data.pages == Some(pages) && pages.single_by_path is None ==> spec_payload(Some(data)) is None,
        data.pages == Some(pages) && pages.single_by_path == Some(page) ==> spec_payload(Some(data)) == Some(page),
{
}

} // verus!
