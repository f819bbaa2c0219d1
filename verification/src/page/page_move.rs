//! The `PageMove` mutation.

use vstd::prelude::*;

use crate::common::{Int, ResponseStatus};

verus! {

pub struct PageMove;

pub const OPERATION_NAME: &'static str = "PageMove";

pub const QUERY: &'static str = "mutation PageMove(\n  $id: Int!\n  $destinationPath: String!\n  $destinationLocale: String!\n) {\n  pages {\n    move (\n      id: $id\n      destinationPath: $destinationPath\n      destinationLocale: $destinationLocale\n    ) {\n      responseResult {\n        succeeded\n        errorCode\n        slug\n        message\n      }\n    }\n  }\n}\n";

#[derive(Debug)]
pub struct Variables {
    pub id: Int,
    pub destination_path: String,
    pub destination_locale: String,
}

#[derive(Debug)]
pub struct ResponseData {
    pub pages: Option<Pages>,
}

#[derive(Debug)]
pub struct Pages {
    pub move_: Option<Move>,
}

#[derive(Debug)]
pub struct Move {
    pub response_result: Option<ResponseStatus>,
}

/// The status of the mutation, where the answer holds it.
pub open spec fn spec_payload(data: Option<ResponseData>) -> Option<ResponseStatus> {
    match data {
        Some(ResponseData { pages: Some(Pages { move_: Some(Move { response_result: Some(response_result) }) }) }) => Some(response_result),
        _ => None,
    }
}

/// Tells whether the answer holds the status of the mutation.
pub fn has_payload(data: &Option<ResponseData>) -> (present: bool)
    ensures
        present == spec_payload(*data) is Some,
{
    match data {
        Some(ResponseData { pages: Some(Pages { move_: Some(Move { response_result: Some(_) }) }) }) => true,
        _ => false,
    }
}

/// Where the answer holds the status of the mutation: read off the path of fields that lead to
/// it; an absent field on the way means the answer does not hold it.
pub proof fn lemma_answer_read(data: ResponseData, pages: Pages, move_: Move, response_result: ResponseStatus)
    ensures
        spec_payload(None) is None,
        data.pages is None ==> spec_payload(Some(data)) is None,
        data.pages == Some(pages) && pages.move_ is None ==> spec_payload(Some(data)) is None,
        data.pages == Some(pages) && pages.move_ == Some(move_) && move_.response_result is None ==> spec_payload(Some(data)) is None,
        data.pages == Some(pages) && pages.move_ == Some(move_) && move_.response_result == Some(response_result) ==> spec_payload(Some(data)) == Some(response_result),
{
}

} // verus!
