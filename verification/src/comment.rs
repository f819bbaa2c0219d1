//! Comments and comment providers.

pub mod comment_create;
pub mod comment_get;
pub mod comment_list;
pub mod comment_provider_list;
pub mod comment_provider_update;

use vstd::prelude::*;

use crate::common::{ApiErrorView, Boolean, Date, Int, KeyValuePair, KeyValuePairInput, KnownErrorCodes, Response, ResponseStatus, UnknownError, classify_response_error, classify_response_status_error, decimal, first_error_code_readable, flatten, flatten_seq, int_to_string, spec_classify_response_error, spec_classify_response_status_error, spec_error_of_code, unknown_code_message};

verus! {

/// The errors of the endpoints of this module, named after the Wiki.js
/// error codes they stand for.
#[derive(Debug, PartialEq)]
pub enum CommentError {
    CommentGenericError,
    CommentPostForbidden,
    CommentContentMissing,
    CommentManageForbidden,
    CommentNotFound,
    CommentViewForbidden,
    UnknownErrorCode { code: i64, message: String },
    UnknownErrorMessage { message: String },
    UnknownError,
}

impl View for CommentError {
    type V = ApiErrorView;

    open spec fn view(&self) -> ApiErrorView {
        match self {
            CommentError::CommentGenericError => ApiErrorView::Known(8001),
            CommentError::CommentPostForbidden => ApiErrorView::Known(8002),
            CommentError::CommentContentMissing => ApiErrorView::Known(8003),
            CommentError::CommentManageForbidden => ApiErrorView::Known(8004),
            CommentError::CommentNotFound => ApiErrorView::Known(8005),
            CommentError::CommentViewForbidden => ApiErrorView::Known(8006),
            CommentError::UnknownErrorCode { code, message } => ApiErrorView::UnknownCode(*code, message@),
            CommentError::UnknownErrorMessage { message } => ApiErrorView::UnknownMessage(message@),
            CommentError::UnknownError => ApiErrorView::Unknown,
        }
    }
}

impl CommentError {
    /// The text that describes the error.
    pub open spec fn spec_to_string(&self) -> Seq<char> {
        match self {
            CommentError::CommentGenericError => "An unexpected error occurred."@,
            CommentError::CommentPostForbidden => "You are not authorized to post a comment on this page."@,
            CommentError::CommentContentMissing => "Comment content is missing or too short."@,
            CommentError::CommentManageForbidden => "You are not authorized to manage comments on this page."@,
            CommentError::CommentNotFound => "This comment does not exist."@,
            CommentError::CommentViewForbidden => "You are not authorized to view comments for this page."@,
            CommentError::UnknownErrorCode { code, message } => "Unknown response error code: "@ + decimal(*code as int) + ": "@ + message@,
            CommentError::UnknownErrorMessage { message } => "Unknown response error: "@ + message@,
            CommentError::UnknownError => "Unknown response error."@,
        }
    }

    /// The text that describes the error.
    pub fn to_string(&self) -> (text: String)
        ensures
            text@ == self.spec_to_string(),
    {
        match self {
            CommentError::CommentGenericError => String::from_str("An unexpected error occurred."),
            CommentError::CommentPostForbidden => String::from_str("You are not authorized to post a comment on this page."),
            CommentError::CommentContentMissing => String::from_str("Comment content is missing or too short."),
            CommentError::CommentManageForbidden => String::from_str("You are not authorized to manage comments on this page."),
            CommentError::CommentNotFound => String::from_str("This comment does not exist."),
            CommentError::CommentViewForbidden => String::from_str("You are not authorized to view comments for this page."),
            CommentError::UnknownErrorCode { code, message } => {
                let mut text = String::from_str("Unknown response error code: ");
                text.append(int_to_string(*code).as_str());
                text.append(": ");
                text.append(message.as_str());
                text
            },
            CommentError::UnknownErrorMessage { message } => {
                let mut text = String::from_str("Unknown response error: ");
                text.append(message.as_str());
                text
            },
            CommentError::UnknownError => String::from_str("Unknown response error."),
        }
    }
}

impl UnknownError for CommentError {
    open spec fn spec_is_named_code(code: i64) -> bool {
        8001 <= code <= 8006
    }

    fn unknown_error_code(code: i64, message: String) -> (err: Self) {
        CommentError::UnknownErrorCode { code, message }
    }

    fn unknown_error_message(message: String) -> (err: Self) {
        CommentError::UnknownErrorMessage { message }
    }

    fn unknown_error() -> (err: Self) {
        CommentError::UnknownError
    }

    fn from_error_code(code: i64) -> (err: Self) {
        match code {
            8001 => CommentError::CommentGenericError,
            8002 => CommentError::CommentPostForbidden,
            8003 => CommentError::CommentContentMissing,
            8004 => CommentError::CommentManageForbidden,
            8005 => CommentError::CommentNotFound,
            8006 => CommentError::CommentViewForbidden,
            _ => {
                let message = String::from_str("Unknown error");
                CommentError::UnknownErrorCode { code, message }
            },
        }
    }
}

impl From<i64> for CommentError {
    /// The error of a Wiki.js error code: its own variant where the type
    /// names the code, else an unknown-code error.
    fn from(code: i64) -> (err: Self)
        ensures
            err@ == spec_error_of_code::<CommentError>(code),
    {
        CommentError::from_error_code(code)
    }
}

/// `from` is specified by its own `ensures`, over the error's view: an
/// unknown-code error holds a `String`, which no spec function builds, so the
/// generic specification of `From` is not claimed.
impl vstd::std_specs::convert::FromSpecImpl<i64> for CommentError {
    open spec fn obeys_from_spec() -> bool {
        false
    }

    open spec fn from_spec(code: i64) -> Self {
        CommentError::UnknownError
    }
}

impl KnownErrorCodes for CommentError {
    open spec fn spec_known_error_codes() -> Seq<i64> {
        seq![8001, 8002, 8003, 8004, 8005, 8006]
    }

    open spec fn spec_is_known_error_code(code: i64) -> bool {
        8001 <= code <= 8006
    }

    fn known_error_codes() -> (codes: Vec<i64>) {
        let codes = vec![8001, 8002, 8003, 8004, 8005, 8006];
        proof {
            assert(codes@ =~= Self::spec_known_error_codes());
        }
        codes
    }

    fn is_known_error_code(code: i64) -> (known: bool) {
        8001 <= code && code <= 8006
    }
}

/// The codes that `CommentError::known_error_codes` lists are exactly the codes that
/// `CommentError::is_known_error_code` accepts.
pub proof fn lemma_known_error_codes_listed(code: i64)
    ensures
        CommentError::spec_known_error_codes().contains(code) <==> CommentError::spec_is_known_error_code(code),
{
    let codes = CommentError::spec_known_error_codes();
    if CommentError::spec_is_known_error_code(code) {
        let i: int = code - 8001;
        assert(codes[i] == code);
    }
}

/// A code is known to `CommentError` exactly when the type has a variant of its own
/// for it: `CommentError::from` gives the known error for the known codes and an
/// unknown-code error for every other code.
pub proof fn lemma_known_error_codes_named(code: i64)
    ensures
        CommentError::spec_is_known_error_code(code) <==> CommentError::spec_is_named_code(code),
        spec_error_of_code::<CommentError>(code) == (if CommentError::spec_is_known_error_code(code) {
            ApiErrorView::Known(code)
        } else {
            ApiErrorView::UnknownCode(code, unknown_code_message())
        }),
{
}

#[derive(Debug)]
pub struct Comment {
    pub id: Int,
    pub content: String,
    pub render: String,
    pub author_id: Int,
    pub author_name: String,
    pub author_email: String,
    pub author_ip: String,
    pub created_at: Date,
    pub updated_at: Date,
}

#[derive(Debug)]
pub struct CommentProvider {
    pub is_enabled: Boolean,
    pub key: String,
    pub title: String,
    pub description: Option<String>,
    pub logo: Option<String>,
    pub website: Option<String>,
    pub is_available: Option<Boolean>,
    pub config: Option<Vec<Option<KeyValuePair>>>,
}

#[derive(Debug)]
pub struct CommentProviderInput {
    pub is_enabled: Boolean,
    pub key: String,
    pub config: Option<Vec<Option<KeyValuePairInput>>>,
}

#[derive(Debug)]
pub struct CommentCreateResponse {
    pub response_result: Option<ResponseStatus>,
    pub id: Option<Int>,
}

/// Reads the answer to the `CommentList` query: the listed items, without the absent ones, or the error
/// that the answer or the transport reports.
pub fn comment_list(response: Result<Response<comment_list::ResponseData>, String>) -> (result: Result<Vec<Comment>, CommentError>)
    requires
        response matches Ok(body) ==> (comment_list::spec_payload(body.data) is None ==> first_error_code_readable(
            body.errors,
        )),
    ensures
        match response {
            Err(message) => result matches Err(err) && err@ == ApiErrorView::UnknownMessage(message@),
            Ok(body) => match comment_list::spec_payload(body.data) {
                Some(payload) => result matches Ok(items) && items@ == flatten_seq(payload@),
                None => result matches Err(err) && err@ == spec_classify_response_error::<CommentError>(
                    body.errors,
                ),
            },
        },
{
    let body = match response {
        Ok(body) => body,
        Err(message) => {
            return Err(CommentError::UnknownErrorMessage { message });
        },
    };
    let Response { data, errors } = body;
    if let Some(data) = data {
        if let Some(comments) = data.comments {
            return Ok(flatten(comments.list));
        }
    }
    Err(classify_response_error(errors))
}

/// Reads the answer to the `CommentProviderList` query: the listed items, without the absent ones, or the error
/// that the answer or the transport reports.
pub fn comment_provider_list(response: Result<Response<comment_provider_list::ResponseData>, String>) -> (result: Result<Vec<CommentProvider>, CommentError>)
    requires
        response matches Ok(body) ==> (comment_provider_list::spec_payload(body.data) is None ==> first_error_code_readable(
            body.errors,
        )),
    ensures
        match response {
            Err(message) => result matches Err(err) && err@ == ApiErrorView::UnknownMessage(message@),
            Ok(body) => match comment_provider_list::spec_payload(body.data) {
                Some(payload) => result matches Ok(items) && items@ == flatten_seq(payload@),
                None => result matches Err(err) && err@ == spec_classify_response_error::<CommentError>(
                    body.errors,
                ),
            },
        },
{
    let body = match response {
        Ok(body) => body,
        Err(message) => {
            return Err(CommentError::UnknownErrorMessage { message });
        },
    };
    let Response { data, errors } = body;
    if let Some(data) = data {
        if let Some(comments) = data.comments {
            if let Some(providers) = comments.providers {
                return Ok(flatten(providers));
            }
        }
    }
    Err(classify_response_error(errors))
}

/// Reads the answer to the `CommentGet` query: what it asked for, or the error
/// that the answer or the transport reports.
pub fn comment_get(response: Result<Response<comment_get::ResponseData>, String>) -> (result: Result<Comment, CommentError>)
    requires
        response matches Ok(body) ==> (comment_get::spec_payload(body.data) is None ==> first_error_code_readable(
            body.errors,
        )),
    ensures
        match response {
            Err(message) => result matches Err(err) && err@ == ApiErrorView::UnknownMessage(message@),
            Ok(body) => match comment_get::spec_payload(body.data) {
                Some(payload) => result matches Ok(value) && value == payload,
                None => result matches Err(err) && err@ == spec_classify_response_error::<CommentError>(
                    body.errors,
                ),
            },
        },
{
    let body = match response {
        Ok(body) => body,
        Err(message) => {
            return Err(CommentError::UnknownErrorMessage { message });
        },
    };
    let Response { data, errors } = body;
    if let Some(data) = data {
        if let Some(comments) = data.comments {
            if let Some(comment) = comments.single {
                return Ok(comment);
            }
        }
    }
    Err(classify_response_error(errors))
}

/// Reads the answer to the `CommentProviderUpdate` mutation: success where the server reports it, or the error
/// that the answer or the transport reports.
pub fn comment_provider_update(response: Result<Response<comment_provider_update::ResponseData>, String>) -> (result: Result<(), CommentError>)
    requires
        response matches Ok(body) ==> (comment_provider_update::spec_payload(body.data) is None ==> first_error_code_readable(
            body.errors,
        )),
    ensures
        match response {
            Err(message) => result matches Err(err) && err@ == ApiErrorView::UnknownMessage(message@),
            Ok(body) => match comment_provider_update::spec_payload(body.data) {
                Some(payload) => if payload.succeeded {
                    result is Ok
                } else {
                    result matches Err(err) && err@ == spec_classify_response_status_error::<CommentError>(payload)
                },
                None => result matches Err(err) && err@ == spec_classify_response_error::<CommentError>(
                    body.errors,
                ),
            },
        },
{
    let body = match response {
        Ok(body) => body,
        Err(message) => {
            return Err(CommentError::UnknownErrorMessage { message });
        },
    };
    let Response { data, errors } = body;
    if let Some(data) = data {
        if let Some(comments) = data.comments {
            if let Some(update_providers) = comments.update_providers {
                if let Some(response_result) = update_providers.response_result {
                    if response_result.succeeded {
                        return Ok(());
                    } else {
                        return Err(classify_response_status_error(response_result));
                    }
                }
            }
        }
    }
    Err(classify_response_error(errors))
}

/// Reads the answer to the `CommentCreate` mutation: success where the server reports it, or the error
/// that the answer or the transport reports.
pub fn comment_create(response: Result<Response<comment_create::ResponseData>, String>) -> (result: Result<(), CommentError>)
    requires
        response matches Ok(body) ==> (comment_create::spec_payload(body.data) is None ==> first_error_code_readable(
            body.errors,
        )),
    ensures
        match response {
            Err(message) => result matches Err(err) && err@ == ApiErrorView::UnknownMessage(message@),
            Ok(body) => match comment_create::spec_payload(body.data) {
                Some(payload) => if payload.succeeded {
                    result is Ok
                } else {
                    result matches Err(err) && err@ == spec_classify_response_status_error::<CommentError>(payload)
                },
                None => result matches Err(err) && err@ == spec_classify_response_error::<CommentError>(
                    body.errors,
                ),
            },
        },
{
    let body = match response {
        Ok(body) => body,
        Err(message) => {
            return Err(CommentError::UnknownErrorMessage { message });
        },
    };
    let Response { data, errors } = body;
    if let Some(data) = data {
        if let Some(comments) = data.comments {
            if let Some(create) = comments.create {
                if let Some(response_result) = create.response_result {
                    if response_result.succeeded {
                        return Ok(());
                    } else {
                        return Err(classify_response_status_error(response_result));
                    }
                }
            }
        }
    }
    Err(classify_response_error(errors))
}

} // verus!
