//! The `PageGetUpdatedAt` query.

use vstd::prelude::*;

use crate::common::{Date, Int};

verus! {

pub struct PageGetUpdatedAt;

pub const OPERATION_NAME: &'static str = "PageGetUpdatedAt";

pub const QUERY: &'static str = "query PageGetUpdatedAt($id: Int!) {\n  pages {\n    single (id: $id) {\n      updatedAt\n    }\n  }\n}\n";

#[derive(Debug)]
pub struct Variables {
    pub id: Int,
}

#[derive(Debug)]
pub struct ResponseData {
    pub pages: Option<Pages>,
}

#[derive(Debug)]
pub struct Pages {
    pub single: Option<Single>,
}

#[derive(Debug)]
pub struct Single {
    pub updated_at: Date,
}

/// What the answer asks for, where the answer holds it.
pub open spec fn spec_payload(data: Option<ResponseData>) -> Option<Date> {
    match data {
        Some(ResponseData { pages: Some(Pages { single: Some(Single { updated_at }) }) }) => Some(updated_at),
        _ => None,
    }
}

/// Tells whether the answer holds what the query asks for.
pub fn has_payload(data: &Option<ResponseData>) -> (present: bool)
    ensures
        present == spec_payload(*data) is Some,
{
    match data {
        Some(ResponseData { pages: Some(Pages { single: Some(Single { updated_at: _ }) }) }) => true,
        _ => false,
    }
}

/// Where the answer holds what the query asks for: read off the path of fields that lead to
/// it; an absent field on the way means the answer does not hold it.
pub proof fn lemma_answer_read(data: ResponseData, pages: Pages, single: Single)
    ensures
        spec_payload(None) is None,
        data.pages is None ==> spec_payload(Some(data)) is None,
        data.pages == Some(pages) && pages.single is None ==> spec_payload(Some(data)) is None,
        data.pages == Some(pages) && pages.single == Some(single) ==> spec_payload(Some(data)) == Some(single.updated_at),
{
}

} // verus!
