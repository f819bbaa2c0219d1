//! The `PageCreate` mutation.

use vstd::prelude::*;

use crate::common::{Boolean, Date, ResponseStatus};
use crate::page::Page;

verus! {

pub struct PageCreate;

pub const OPERATION_NAME: &'static str = "PageCreate";

pub const QUERY: &'static str = "mutation PageCreate(\n    $content: String!\n    $description: String!\n    $editor: String!\n    $isPublished: Boolean!\n    $isPrivate: Boolean!\n    $locale: String!\n    $path: String!\n    $publishEndDate: Date\n    $publishStartDate: Date\n    $scriptCss: String\n    $scriptJs: String\n    $tags: [String]!\n    $title: String!\n    ) {\n  pages {\n    create (\n      content: $content\n      description: $description\n      editor: $editor\n      isPublished: $isPublished\n      isPrivate: $isPrivate\n      locale: $locale\n      path: $path\n      publishEndDate: $publishEndDate\n      publishStartDate: $publishStartDate\n      scriptCss: $scriptCss\n      scriptJs: $scriptJs\n      tags: $tags\n      title: $title\n    ) {\n      responseResult {\n        succeeded\n        errorCode\n        slug\n        message\n      }\n      page {\n        id\n        path\n        hash\n        title\n        description\n        isPrivate\n        isPublished\n        privateNS\n        publishStartDate\n        publishEndDate\n        tags {\n          id\n          tag\n          title\n          createdAt\n          updatedAt\n        }\n        content\n        render\n        toc\n        contentType\n        createdAt\n        updatedAt\n        editor\n        locale\n        scriptCss\n        scriptJs\n        authorId\n        authorName\n        authorEmail\n        creatorId\n        creatorName\n        creatorEmail\n      }\n    }\n  }\n}\n";

#[derive(Debug)]
pub struct Variables {
    pub content: String,
    pub description: String,
    pub editor: String,
    pub is_published: Boolean,
    pub is_private: Boolean,
    pub locale: String,
    pub path: String,
    pub publish_end_date: Option<Date>,
    pub publish_start_date: Option<Date>,
    pub script_css: Option<String>,
    pub script_js: Option<String>,
    pub tags: Vec<Option<String>>,
    pub title: String,
}

#[derive(Debug)]
pub struct ResponseData {
    pub pages: Option<PageCreatePages>,
}

#[derive(Debug)]
pub struct PageCreatePages {
    pub create: Option<Create>,
}

#[derive(Debug)]
pub struct Create {
    pub response_result: ResponseStatus,
    pub page: Option<Page>,
}

/// The status of the mutation, where the answer holds it.
pub open spec fn spec_payload(data: Option<ResponseData>) -> Option<ResponseStatus> {
    match data {
        Some(ResponseData { pages: Some(PageCreatePages { create: Some(Create { response_result: status, .. }) }) }) => Some(status),
        _ => None,
    }
}

/// Tells whether the answer holds the status of the mutation.
pub fn has_payload(data: &Option<ResponseData>) -> (present: bool)
    ensures
        present == spec_payload(*data) is Some,
{
    match data {
        Some(ResponseData { pages: Some(PageCreatePages { create: Some(Create { response_result: _, .. }) }) }) => true,
        _ => false,
    }
}

/// Where the answer holds the status of the mutation: read off the path of fields that lead to
/// it; an absent field on the way means the answer does not hold it.
pub proof fn lemma_answer_read(data: ResponseData, pages: PageCreatePages, create: Create)
    ensures
        spec_payload(None) is None,
        data.pages is None ==> spec_payload(Some(data)) is None,
        data.pages == Some(pages) && pages.create is None ==> spec_payload(Some(data)) is None,
        data.pages == Some(pages) && pages.create == Some(create) ==> spec_payload(Some(data)) == Some(create.response_result),
{
}

} // verus!
