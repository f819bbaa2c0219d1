//! The `PageGetMinimal` query.

use vstd::prelude::*;

use crate::common::Int;
use crate::page::PageMinimal;

verus! {

pub struct PageGetMinimal;

pub const OPERATION_NAME: &'static str = "PageGetMinimal";

pub const QUERY: &'static str = "query PageGetMinimal($id: Int!) {\n  pages {\n    single (id: $id) {\n      id\n      path\n      content\n      createdAt\n      updatedAt\n      editor\n      locale\n    }\n  }\n}\n";

#[derive(Debug)]
pub struct Variables {
    pub id: Int,
}

#[derive(Debug)]
pub struct ResponseData {
    pub pages: Option<Pages>,
}

#[derive(Debug)]
pub struct Pages {
    pub single: Option<PageMinimal>,
}

/// What the answer asks for, where the answer holds it.
pub open spec fn spec_payload(data: Option<ResponseData>) -> Option<PageMinimal> {
    match data {
        Some(ResponseData { pages: Some(Pages { single: Some(single) }) }) => Some(single),
        _ => None,
    }
}

/// Tells whether the answer holds what the query asks for.
pub fn has_payload(data: &Option<ResponseData>) -> (present: bool)
    ensures
        present == spec_payload(*data) is Some,
{
    match data {
        Some(ResponseData { pages: Some(Pages { single: Some(_) }) }) => true,
        _ => false,
    }
}

/// Where the answer holds what the query asks for: read off the path of fields that lead to
/// it; an absent field on the way means the answer does not hold it.
pub proof fn lemma_answer_read(data: ResponseData, pages: Pages, single: PageMinimal)
    ensures
        spec_payload(None) is None,
        data.pages is None ==> spec_payload(Some(data)) is None,
        data.pages == Some(pages) && pages.single is None ==> spec_payload(Some(data)) is None,
        data.pages == Some(pages) && pages.single == Some(single) ==> spec_payload(Some(data)) == Some(single),
{
}

} // verus!
