//! The `PageUpdate` mutation.

use vstd::prelude::*;

use crate::common::{Boolean, Date, Int, ResponseStatus};
use crate::page::Page;

verus! {

pub struct PageUpdate;

pub const OPERATION_NAME: &'static str = "PageUpdate";

pub const QUERY: &'static str = "mutation PageUpdate(\n    $id: Int!\n    $content: String\n    $description: String\n    $editor: String\n    $isPrivate: Boolean\n    $isPublished: Boolean\n    $locale: String\n    $path: String\n    $publishEndDate: Date\n    $publishStartDate: Date\n    $scriptCss: String\n    $scriptJs: String\n    $tags: [String]\n    $title: String\n    ) {\n  pages {\n    update (\n      id: $id\n      content: $content\n      description: $description\n      editor: $editor\n      isPrivate: $isPrivate\n      isPublished: $isPublished\n      locale: $locale\n      path: $path\n      publishEndDate: $publishEndDate\n      publishStartDate: $publishStartDate\n      scriptCss: $scriptCss\n      scriptJs: $scriptJs\n      tags: $tags\n      title: $title\n    ) {\n      responseResult {\n        succeeded\n        errorCode\n        slug\n        message\n      }\n      page {\n        id\n        path\n        hash\n        title\n        description\n        isPrivate\n        isPublished\n        privateNS\n        publishStartDate\n        publishEndDate\n        tags {\n          id\n          tag\n          title\n          createdAt\n          updatedAt\n        }\n        content\n        render\n        toc\n        contentType\n        createdAt\n        updatedAt\n        editor\n        locale\n        scriptCss\n        scriptJs\n        authorId\n        authorName\n        authorEmail\n        creatorId\n        creatorName\n        creatorEmail\n      }\n    }\n  }\n}\n";

#[derive(Debug)]
pub struct Variables {
    pub id: Int,
    pub content: Option<String>,
    pub description: Option<String>,
    pub editor: Option<String>,
    pub is_private: Option<Boolean>,
    pub is_published: Option<Boolean>,
    pub locale: Option<String>,
    pub path: Option<String>,
    pub publish_end_date: Option<Date>,
    pub publish_start_date: Option<Date>,
    pub script_css: Option<String>,
    pub script_js: Option<String>,
    pub tags: Option<Vec<Option<String>>>,
    pub title: Option<String>,
}

#[derive(Debug)]
pub struct ResponseData {
    pub pages: Option<Pages>,
}

#[derive(Debug)]
pub struct Pages {
    pub update: Option<Update>,
}

#[derive(Debug)]
pub struct Update {
    pub response_result: ResponseStatus,
    pub page: Option<Page>,
}

/// The status of the mutation, where the answer holds it.
pub open spec fn spec_payload(data: Option<ResponseData>) -> Option<ResponseStatus> {
    match data {
        Some(ResponseData { pages: Some(Pages { update: Some(Update { response_result: status, .. }) }) }) => Some(status),
        _ => None,
    }
}

/// Tells whether the answer holds the status of the mutation.
pub fn has_payload(data: &Option<ResponseData>) -> (present: bool)
    ensures
        present == spec_payload(*data) is Some,
{
    match data {
        Some(ResponseData { pages: Some(Pages { update: Some(Update { response_result: _, .. }) }) }) => true,
        _ => false,
    }
}

/// Where the answer holds the status of the mutation: read off the path of fields that lead to
/// it; an absent field on the way means the answer does not hold it.
pub proof fn lemma_answer_read(data: ResponseData, pages: Pages, update: Update)
    ensures
        spec_payload(None) is None,
        data.pages is None ==> spec_payload(Some(data)) is None,
        data.pages == Some(pages) && pages.update is None ==> spec_payload(Some(data)) is None,
        data.pages == Some(pages) && pages.update == Some(update) ==> spec_payload(Some(data)) == Some(update.response_result),
{
}

} // verus!
