//! The `CommentCreate` mutation.

use vstd::prelude::*;

use crate::common::{Int, ResponseStatus};
use crate::comment::CommentCreateResponse;

verus! {

pub struct CommentCreate;

pub const OPERATION_NAME: &'static str = "CommentCreate";

pub const QUERY: &'static str = "mutation CommentCreate(\n  $pageId: Int!\n  $replyTo: Int\n  $content: String!\n  $guestName: String\n  $guestEmail: String\n) {\n  comments {\n    create (\n      pageId: $pageId\n      replyTo: $replyTo\n      content: $content\n      guestName: $guestName\n      guestEmail: $guestEmail\n    ) {\n      responseResult {\n        succeeded\n        errorCode\n        slug\n        message\n      }\n      id\n    }\n  }\n}\n";

#[derive(Debug)]
pub struct Variables {
    pub page_id: Int,
    pub reply_to: Option<Int>,
    pub content: String,
    pub guest_name: Option<String>,
    pub guest_email: Option<String>,
}

#[derive(Debug)]
pub struct ResponseData {
    pub comments: Option<Comments>,
}

#[derive(Debug)]
pub struct Comments {
    pub create: Option<CommentCreateResponse>,
}

/// The status of the mutation, where the answer holds it.
pub open spec fn spec_payload(data: Option<ResponseData>) -> Option<ResponseStatus> {
    match data {
        Some(ResponseData { comments: Some(Comments { create: Some(CommentCreateResponse { response_result: Some(response_result), .. }) }) }) => Some(response_result),
        _ => None,
    }
}

/// Tells whether the answer holds the status of the mutation.
pub fn has_payload(data: &Option<ResponseData>) -> (present: bool)
    ensures
        present == spec_payload(*data) is Some,
{
    match data {
        Some(ResponseData { comments: Some(Comments { create: Some(CommentCreateResponse { response_result: Some(_), .. }) }) }) => true,
        _ => false,
    }
}

/// Where the answer holds the status of the mutation: read off the path of fields that lead to
/// it; an absent field on the way means the answer does not hold it.
pub proof fn lemma_answer_read(data: ResponseData, comments: Comments, create: CommentCreateResponse, response_result: ResponseStatus)
    ensures
        spec_payload(None) is None,
        data.comments is None ==> spec_payload(Some(data)) is None,
        data.comments == Some(comments) && comments.create is None ==> spec_payload(Some(data)) is None,
        data.comments == Some(comments) && comments.create == Some(create) && create.response_result is None ==> spec_payload(Some(data)) is None,
        data.comments == Some(comments) && comments.create == Some(create) && create.response_result == Some(response_result) ==> spec_payload(Some(data)) == Some(response_result),
{
}

} // verus!
