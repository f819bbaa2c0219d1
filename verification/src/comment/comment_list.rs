//! The `CommentList` query.

use vstd::prelude::*;

use crate::comment::Comment;

verus! {

pub struct CommentList;

pub const OPERATION_NAME: &'static str = "CommentList";

pub const QUERY: &'static str = "query CommentList($locale: String!, $path: String!) {\n  comments {\n    list(locale: $locale, path: $path) {\n      id\n      content\n      render\n      authorId\n      authorName\n      authorEmail\n      authorIP\n      createdAt\n      updatedAt\n    }\n  }\n}\n";

#[derive(Debug)]
pub struct Variables {
    pub locale: String,
    pub path: String,
}

#[derive(Debug)]
pub struct ResponseData {
    pub comments: Option<Comments>,
}

#[derive(Debug)]
pub struct Comments {
    pub list: Vec<Option<Comment>>,
}

/// The listed items, where the answer holds them.
pub open spec fn spec_payload(data: Option<ResponseData>) -> Option<Vec<Option<Comment>>> {
    match data {
        Some(ResponseData { comments: Some(Comments { list }) }) => Some(list),
        _ => None,
    }
}

/// Tells whether the answer holds the listed items.
pub fn has_payload(data: &Option<ResponseData>) -> (present: bool)
    ensures
        present == spec_payload(*data) is Some,
{
    match data {
        Some(ResponseData { comments: Some(Comments { list: _ }) }) => true,
        _ => false,
    }
}

/// Where the answer holds the listed items: read off the path of fields that lead to
/// it; an absent field on the way means the answer does not hold it.
pub proof fn lemma_answer_read(data: ResponseData, comments: Comments)
    ensures
        spec_payload(None) is None,
        data.comments is None ==> spec_payload(Some(data)) is None,
        data.comments == Some(comments) ==> spec_payload(Some(data)) == Some(comments.list),
{
}

} // verus!
