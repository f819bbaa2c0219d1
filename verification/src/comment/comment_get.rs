//! The `CommentGet` query.

use vstd::prelude::*;

use crate::common::Int;
use crate::comment::Comment;

verus! {

pub struct CommentGet;

pub const OPERATION_NAME: &'static str = "CommentGet";

pub const QUERY: &'static str = "query CommentGet($id: Int!) {\n  comments {\n    single (id: $id) {\n      id\n      content\n      render\n      authorId\n      authorName\n      authorEmail\n      authorIP\n      createdAt\n      updatedAt\n    }\n  }\n}\n";

#[derive(Debug)]
pub struct Variables {
    pub id: Int,
}

#[derive(Debug)]
pub struct ResponseData {
    pub comments: Option<Comments>,
}

#[derive(Debug)]
pub struct Comments {
    pub single: Option<Comment>,
}

/// What the answer asks for, where the answer holds it.
pub open spec fn spec_payload(data: Option<ResponseData>) -> Option<Comment> {
    match data {
        Some(ResponseData { comments: Some(Comments { single: Some(comment) }) }) => Some(comment),
        _ => None,
    }
}

/// Tells whether the answer holds what the query asks for.
pub fn has_payload(data: &Option<ResponseData>) -> (present: bool)
    ensures
        present == spec_payload(*data) is Some,
{
    match data {
        Some(ResponseData { comments: Some(Comments { single: Some(_) }) }) => true,
        _ => false,
    }
}

/// Where the answer holds what the query asks for: read off the path of fields that lead to
/// it; an absent field on the way means the answer does not hold it.
pub proof fn lemma_answer_read(data: ResponseData, comments: Comments, comment: Comment)
    ensures
        spec_payload(None) is None,
        data.comments is None ==> spec_payload(Some(data)) is None,
        data.comments == Some(comments) && comments.single is None ==> spec_payload(Some(data)) is None,
        data.comments == Some(comments) && comments.single == Some(comment) ==> spec_payload(Some(data)) == Some(comment),
{
}

} // verus!
