//! The `CommentProviderUpdate` mutation.

use vstd::prelude::*;

use crate::common::ResponseStatus;
use crate::comment::CommentProviderInput;

verus! {

pub struct CommentProviderUpdate;

pub const OPERATION_NAME: &'static str = "CommentProviderUpdate";

pub const QUERY: &'static str = "mutation CommentProviderUpdate($providers: [CommentProviderInput]) {\n  comments {\n    updateProviders(providers: $providers) {\n      responseResult {\n        succeeded\n        errorCode\n        slug\n        message\n      }\n    }\n  }\n}\n";

#[derive(Debug)]
pub struct Variables {
    pub providers: Option<Vec<Option<CommentProviderInput>>>,
}

#[derive(Debug)]
pub struct ResponseData {
    pub comments: Option<Comments>,
}

#[derive(Debug)]
pub struct Comments {
    pub update_providers: Option<UpdateProviders>,
}

#[derive(Debug)]
pub struct UpdateProviders {
    pub response_result: Option<ResponseStatus>,
}

/// The status of the mutation, where the answer holds it.
pub open spec fn spec_payload(data: Option<ResponseData>) -> Option<ResponseStatus> {
    match data {
        Some(ResponseData { comments: Some(Comments { update_providers: Some(UpdateProviders { response_result: Some(response_result) }) }) }) => Some(response_result),
        _ => None,
    }
}

/// Tells whether the answer holds the status of the mutation.
pub fn has_payload(data: &Option<ResponseData>) -> (present: bool)
    ensures
        present == spec_payload(*data) is Some,
{
    match data {
        Some(ResponseData { comments: Some(Comments { update_providers: Some(UpdateProviders { response_result: Some(_) }) }) }) => true,
        _ => false,
    }
}

/// Where the answer holds the status of the mutation: read off the path of fields that lead to
/// it; an absent field on the way means the answer does not hold it.
pub proof fn lemma_answer_read(data: ResponseData, comments: Comments, update_providers: UpdateProviders, response_result: ResponseStatus)
    ensures
        spec_payload(None) is None,
        data.comments is None ==> spec_payload(Some(data)) is None,
        data.comments == Some(comments) && comments.update_providers is None ==> spec_payload(Some(data)) is None,
        data.comments == Some(comments) && comments.update_providers == Some(update_providers) && update_providers.response_result is None ==> spec_payload(Some(data)) is None,
        data.comments == Some(comments) && comments.update_providers == Some(update_providers) && update_providers.response_result == Some(response_result) ==> spec_payload(Some(data)) == Some(response_result),
{
}

} // verus!
