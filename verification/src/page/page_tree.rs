//! The `PageTree` query.

use vstd::prelude::*;

use crate::common::{Boolean, Int};
use crate::page::{PageTreeItem, PageTreeMode};

verus! {

pub struct PageTree;

pub const OPERATION_NAME: &'static str = "PageTree";

pub const QUERY: &'static str = "query PageTree(\n    $parent: Int!\n    $mode: PageTreeMode!\n    $includeAncestors: Boolean!\n    $locale: String!\n    ) {\n  pages {\n    tree (\n      parent: $parent,\n      mode: $mode,\n      includeAncestors: $includeAncestors,\n      locale: $locale\n    ) {\n      id\n      path\n      depth\n      title\n      isPrivate\n      isFolder\n      privateNS\n      parent\n      pageId\n      locale\n    }\n  }\n}\n";

#[derive(Debug)]
pub struct Variables {
    pub parent: Int,
    pub mode: PageTreeMode,
    pub include_ancestors: Boolean,
    pub locale: String,
}

#[derive(Debug)]
pub struct ResponseData {
    pub pages: Option<Pages>,
}

#[derive(Debug)]
pub struct Pages {
    pub tree: Option<Vec<Option<PageTreeItem>>>,
}

/// The listed items, where the answer holds them.
pub open spec fn spec_payload(data: Option<ResponseData>) -> Option<Option<Vec<Option<PageTreeItem>>>> {
    match data {
        Some(ResponseData { pages: Some(Pages { tree }) }) => Some(tree),
        _ => None,
    }
}

/// Tells whether the answer holds the listed items.
pub fn has_payload(data: &Option<ResponseData>) -> (present: bool)
    ensures
        present == spec_payload(*data) is Some,
{
    match data {
        Some(ResponseData { pages: Some(Pages { tree: _ }) }) => true,
        _ => false,
    }
}

/// Where the answer holds the listed items: read off the path of fields that lead to
/// it; an absent field on the way means the answer does not hold it.
pub proof fn lemma_answer_read(data: ResponseData, pages: Pages)
    ensures
        spec_payload(None) is None,
        data.pages is None ==> spec_payload(Some(data)) is None,
        data.pages == Some(pages) ==> spec_payload(Some(data)) == Some(pages.tree),
{
}

} // verus!
