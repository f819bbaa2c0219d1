//! The `PageVersionGet` query.

use vstd::prelude::*;

use crate::common::Int;
use crate::page::PageVersion;

verus! {

pub struct PageVersionGet;

pub const OPERATION_NAME: &'static str = "PageVersionGet";

pub const QUERY: &'static str = "query PageVersionGet(\n  $pageId: Int!\n  $versionId: Int!\n) {\n  pages {\n    version(\n      pageId: $pageId\n      versionId: $versionId\n    ) {\n      action\n      authorId\n      authorName\n      content\n      contentType\n      createdAt\n      versionDate\n      description\n      editor\n      isPrivate\n      isPublished\n      locale\n      pageId\n      path\n      publishEndDate\n      publishStartDate\n      tags\n      title\n      versionId\n    }\n  }\n}\n";

#[derive(Debug)]
pub struct Variables {
    pub page_id: Int,
    pub version_id: Int,
}

#[derive(Debug)]
pub struct ResponseData {
    pub pages: Option<Pages>,
}

#[derive(Debug)]
pub struct Pages {
    pub version: Option<PageVersion>,
}

/// What the answer asks for, where the answer holds it.
pub open spec fn spec_payload(data: Option<ResponseData>) -> Option<PageVersion> {
    match data {
        Some(ResponseData { pages: Some(Pages { version: Some(version) }) }) => Some(version),
        _ => None,
    }
}

/// Tells whether the answer holds what the query asks for.
pub fn has_payload(data: &Option<ResponseData>) -> (present: bool)
    ensures
        present == spec_payload(*data) is Some,
{
    match data {
        Some(ResponseData { pages: Some(Pages { version: Some(_) }) }) => true,
        _ => false,
    }
}

/// Where the answer holds what the query asks for: read off the path of fields that lead to
/// it; an absent field on the way means the answer does not hold it.
pub proof fn lemma_answer_read(data: ResponseData, pages: Pages, version: PageVersion)
    ensures
        spec_payload(None) is None,
        data.pages is None ==> spec_payload(Some(data)) is None,
        data.pages == Some(pages) && pages.version is None ==> spec_payload(Some(data)) is None,
        data.pages == Some(pages) && pages.version == Some(version) ==> spec_payload(Some(data)) == Some(version),
{
}

} // verus!
