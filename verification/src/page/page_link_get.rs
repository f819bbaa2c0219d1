//! The `PageLinkGet` query.

use vstd::prelude::*;

use crate::page::PageLinkItem;

verus! {

pub struct PageLinkGet;

pub const OPERATION_NAME: &'static str = "PageLinkGet";

pub const QUERY: &'static str = "query PageLinkGet(\n    $locale: String!\n    ) {\n  pages {\n    links (\n      locale: $locale\n    ) {\n      id\n      path\n      title\n      links\n    }\n  }\n}\n";

#[derive(Debug)]
pub struct Variables {
    pub locale: String,
}

#[derive(Debug)]
pub struct ResponseData {
    pub pages: Option<Pages>,
}

#[derive(Debug)]
pub struct Pages {
    pub links: Option<Vec<Option<PageLinkItem>>>,
}

/// The listed items, where the answer holds them.
pub open spec fn spec_payload(data: Option<ResponseData>) -> Option<Vec<Option<PageLinkItem>>> {
    match data {
        Some(ResponseData { pages: Some(Pages { links: Some(links) }) }) => Some(links),
        _ => None,
    }
}

/// Tells whether the answer holds the listed items.
pub fn has_payload(data: &Option<ResponseData>) -> (present: bool)
    ensures
        present == spec_payload(*data) is Some,
{
    match data {
        Some(ResponseData { pages: Some(Pages { links: Some(_) }) }) => true,
        _ => false,
    }
}

/// Where the answer holds the listed items: read off the path of fields that lead to
/// it; an absent field on the way means the answer does not hold it.
pub proof fn lemma_answer_read(data: ResponseData, pages: Pages, links: Vec<Option<PageLinkItem>>)
    ensures
        spec_payload(None) is None,
        data.pages is None ==> spec_payload(Some(data)) is None,
        data.pages == Some(pages) && pages.links is None ==> spec_payload(Some(data)) is None,
        data.pages == Some(pages) && pages.links == Some(links) ==> spec_payload(Some(data)) == Some(links),
{
}

} // verus!
