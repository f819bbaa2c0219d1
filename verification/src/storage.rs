//! Storage targets.

pub mod storage_action_execute;

use vstd::prelude::*;

use crate::common::{ApiErrorView, KnownErrorCodes, Response, UnknownError, classify_response_error, classify_response_status_error, decimal, first_error_code_readable, int_to_string, spec_classify_response_error, spec_classify_response_status_error, spec_error_of_code, unknown_code_message};

verus! {

/// The errors of the endpoints of this module, named after the Wiki.js
/// error codes they stand for.
#[derive(Debug, PartialEq)]
pub enum StorageError {
    UnknownErrorCode { code: i64, message: String },
    UnknownErrorMessage { message: String },
    UnknownError,
}

impl View for StorageError {
    type V = ApiErrorView;

    open spec fn view(&self) -> ApiErrorView {
        match self {
            StorageError::UnknownErrorCode { code, message } => ApiErrorView::UnknownCode(*code, message@),
            StorageError::UnknownErrorMessage { message } => ApiErrorView::UnknownMessage(message@),
            StorageError::UnknownError => ApiErrorView::Unknown,
        }
    }
}

impl StorageError {
    /// The text that describes the error.
    pub open spec fn spec_to_string(&self) -> Seq<char> {
        match self {
            StorageError::UnknownErrorCode { code, message } => "Unknown response error code: "@ + decimal(*code as int) + ": "@ + message@,
            StorageError::UnknownErrorMessage { message } => "Unknown response error: "@ + message@,
            StorageError::UnknownError => "Unknown response error."@,
        }
    }

    /// The text that describes the error.
    pub fn to_string(&self) -> (text: String)
        ensures
            text@ == self.spec_to_string(),
    {
        match self {
            StorageError::UnknownErrorCode { code, message } => {
                let mut text = String::from_str("Unknown response error code: ");
                text.append(int_to_string(*code).as_str());
                text.append(": ");
                text.append(message.as_str());
                text
            },
            StorageError::UnknownErrorMessage { message } => {
                let mut text = String::from_str("Unknown response error: ");
                text.append(message.as_str());
                text
            },
            StorageError::UnknownError => String::from_str("Unknown response error."),
        }
    }
}

impl UnknownError for StorageError {
    open spec fn spec_is_named_code(code: i64) -> bool {
        false
    }

    fn unknown_error_code(code: i64, message: String) -> (err: Self) {
        StorageError::UnknownErrorCode { code, message }
    }

    fn unknown_error_message(message: String) -> (err: Self) {
        StorageError::UnknownErrorMessage { message }
    }

    fn unknown_error() -> (err: Self) {
        StorageError::UnknownError
    }

    fn from_error_code(code: i64) -> (err: Self) {
        let message = String::from_str("Unknown error");
        StorageError::UnknownErrorCode { code, message }
    }
}

impl From<i64> for StorageError {
    /// The error of a Wiki.js error code: its own variant where the type
    /// names the code, else an unknown-code error.
    fn from(code: i64) -> (err: Self)
        ensures
            err@ == spec_error_of_code::<StorageError>(code),
    {
        StorageError::from_error_code(code)
    }
}

/// `from` is specified by its own `ensures`, over the error's view: an
/// unknown-code error holds a `String`, which no spec function builds, so the
/// generic specification of `From` is not claimed.
impl vstd::std_specs::convert::FromSpecImpl<i64> for StorageError {
    open spec fn obeys_from_spec() -> bool {
        false
    }

    open spec fn from_spec(code: i64) -> Self {
        StorageError::UnknownError
    }
}

impl KnownErrorCodes for StorageError {
    open spec fn spec_known_error_codes() -> Seq<i64> {
        Seq::empty()
    }

    open spec fn spec_is_known_error_code(code: i64) -> bool {
        false
    }

    fn known_error_codes() -> (codes: Vec<i64>) {
        let codes: Vec<i64> = Vec::new();
        proof {
            assert(codes@ =~= Self::spec_known_error_codes());
        }
        codes
    }

    fn is_known_error_code(code: i64) -> (known: bool) {
        false
    }
}

/// The codes that `StorageError::known_error_codes` lists are exactly the codes that
/// `StorageError::is_known_error_code` accepts.
pub proof fn lemma_known_error_codes_listed(code: i64)
    ensures
        StorageError::spec_known_error_codes().contains(code) <==> StorageError::spec_is_known_error_code(code),
{
}

/// A code is known to `StorageError` exactly when the type has a variant of its own
/// for it: `StorageError::from` gives the known error for the known codes and an
/// unknown-code error for every other code.
pub proof fn lemma_known_error_codes_named(code: i64)
    ensures
        StorageError::spec_is_known_error_code(code) <==> StorageError::spec_is_named_code(code),
        spec_error_of_code::<StorageError>(code) == (if StorageError::spec_is_known_error_code(code) {
            ApiErrorView::Known(code)
        } else {
            ApiErrorView::UnknownCode(code, unknown_code_message())
        }),
{
}

/// Reads the answer to the `StorageActionExecute` mutation: success where the server reports it, or the error
/// that the answer or the transport reports.
pub fn storage_action_execute(response: Result<Response<storage_action_execute::ResponseData>, String>) -> (result: Result<(), StorageError>)
    requires
        response matches Ok(body) ==> (storage_action_execute::spec_payload(body.data) is None ==> first_error_code_readable(
            body.errors,
        )),
    ensures
        match response {
            Err(message) => result matches Err(err) && err@ == ApiErrorView::UnknownMessage(message@),
            Ok(body) => match storage_action_execute::spec_payload(body.data) {
                Some(payload) => if payload.succeeded {
                    result is Ok
                } else {
                    result matches Err(err) && err@ == spec_classify_response_status_error::<StorageError>(payload)
                },
                None => result matches Err(err) && err@ == spec_classify_response_error::<StorageError>(
                    body.errors,
                ),
            },
        },
{
    let body = match response {
        Ok(body) => body,
        Err(message) => {
            return Err(StorageError::UnknownErrorMessage { message });
        },
    };
    let Response { data, errors } = body;
    if let Some(data) = data {
        if let Some(storage) = data.storage {
            if let Some(execute_action) = storage.execute_action {
                if let Some(response_result) = execute_action.response_result {
                    if response_result.succeeded {
                        return Ok(());
                    } else {
                        return Err(classify_response_status_error(response_result));
                    }
                }
            }
        }
    }
    Err(classify_response_error(errors))
}

} // verus!
