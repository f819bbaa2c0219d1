//! The `PageConflictCheck` query.

use vstd::prelude::*;

use crate::common::{Boolean, Date, Int};

verus! {

pub struct PageConflictCheck;

pub const OPERATION_NAME: &'static str = "PageConflictCheck";

pub const QUERY: &'static str = "query PageConflictCheck(\n  $id: Int!\n  $checkoutDate: Date!\n) {\n  pages {\n    checkConflicts (\n      id: $id\n      checkoutDate: $checkoutDate\n    )\n  }\n}\n";

#[derive(Debug)]
pub struct Variables {
    pub id: Int,
    pub checkout_date: Date,
}

#[derive(Debug)]
pub struct ResponseData {
    pub pages: Option<Pages>,
}

#[derive(Debug)]
pub struct Pages {
    pub check_conflicts: Boolean,
}

/// What the answer asks for, where the answer holds it.
pub open spec fn spec_payload(data: Option<ResponseData>) -> Option<Boolean> {
    match data {
        Some(ResponseData { pages: Some(Pages { check_conflicts }) }) => Some(check_conflicts),
        _ => None,
    }
}

/// Tells whether the answer holds what the query asks for.
pub fn has_payload(data: &Option<ResponseData>) -> (present: bool)
    ensures
        present == spec_payload(*data) is Some,
{
    match data {
        Some(ResponseData { pages: Some(Pages { check_conflicts: _ }) }) => true,
        _ => false,
    }
}

/// Where the answer holds what the query asks for: read off the path of fields that lead to
/// it; an absent field on the way means the answer does not hold it.
pub proof fn lemma_answer_read(data: ResponseData, pages: Pages)
    ensures
        spec_payload(None) is None,
        data.pages is None ==> spec_payload(Some(data)) is None,
        data.pages == Some(pages) ==> spec_payload(Some(data)) == Some(pages.check_conflicts),
{
}

} // verus!
