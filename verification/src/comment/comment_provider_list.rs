//! The `CommentProviderList` query.

use vstd::prelude::*;

use crate::comment::CommentProvider;

verus! {

pub struct CommentProviderList;

pub const OPERATION_NAME: &'static str = "CommentProviderList";

pub const QUERY: &'static str = "query CommentProviderList {\n  comments {\n    providers {\n      isEnabled\n      key\n      title\n      description\n      logo\n      website\n      isAvailable\n      config {\n        key\n        value\n      }\n    }\n  }\n}\n";

#[derive(Debug)]
pub struct Variables;

#[derive(Debug)]
pub struct ResponseData {
    pub comments: Option<Comments>,
}

#[derive(Debug)]
pub struct Comments {
    pub providers: Option<Vec<Option<CommentProvider>>>,
}

/// The listed items, where the answer holds them.
pub open spec fn spec_payload(data: Option<ResponseData>) -> Option<Vec<Option<CommentProvider>>> {
    match data {
        Some(ResponseData { comments: Some(Comments { providers: Some(providers) }) }) => Some(providers),
        _ => None,
    }
}

/// Tells whether the answer holds the listed items.
pub fn has_payload(data: &Option<ResponseData>) -> (present: bool)
    ensures
        present == spec_payload(*data) is Some,
{
    match data {
        Some(ResponseData { comments: Some(Comments { providers: Some(_) }) }) => true,
        _ => false,
    }
}

/// Where the answer holds the listed items: read off the path of fields that lead to
/// it; an absent field on the way means the answer does not hold it.
pub proof fn lemma_answer_read(data: ResponseData, comments: Comments, providers: Vec<Option<CommentProvider>>)
    ensures
        spec_payload(None) is None,
        data.comments is None ==> spec_payload(Some(data)) is None,
        data.comments == Some(comments) && comments.providers is None ==> spec_payload(Some(data)) is None,
        data.comments == Some(comments) && comments.providers == Some(providers) ==> spec_payload(Some(data)) == Some(providers),
{
}

} // verus!
