//! Loggers.

pub mod logger_list;
pub mod logger_update;

use vstd::prelude::*;

use crate::common::{ApiErrorView, Boolean, KeyValuePair, KeyValuePairInput, KnownErrorCodes, Response, UnknownError, classify_response_error, classify_response_status_error, decimal, first_error_code_readable, flatten, flatten_seq, int_to_string, spec_classify_response_error, spec_classify_response_status_error, spec_error_of_code, unknown_code_message};

verus! {

/// The errors of the endpoints of this module, named after the Wiki.js
/// error codes they stand for.
#[derive(Debug, PartialEq)]
pub enum LoggingError {
    UnknownErrorCode { code: i64, message: String },
    UnknownErrorMessage { message: String },
    UnknownError,
}

impl View for LoggingError {
    type V = ApiErrorView;

    open spec fn view(&self) -> ApiErrorView {
        match self {
            LoggingError::UnknownErrorCode { code, message } => ApiErrorView::UnknownCode(*code, message@),
            LoggingError::UnknownErrorMessage { message } => ApiErrorView::UnknownMessage(message@),
            LoggingError::UnknownError => ApiErrorView::Unknown,
        }
    }
}

impl LoggingError {
    /// The text that describes the error.
    pub open spec fn spec_to_string(&self) -> Seq<char> {
        match self {
            LoggingError::UnknownErrorCode { code, message } => "Unknown response error code: "@ + decimal(*code as int) + ": "@ + message@,
            LoggingError::UnknownErrorMessage { message } => "Unknown response error: "@ + message@,
            LoggingError::UnknownError => "Unknown response error."@,
        }
    }

    /// The text that describes the error.
    pub fn to_string(&self) -> (text: String)
        ensures
            text@ == self.spec_to_string(),
    {
        match self {
            LoggingError::UnknownErrorCode { code, message } => {
                let mut text = String::from_str("Unknown response error code: ");
                text.append(int_to_string(*code).as_str());
                text.append(": ");
                text.append(message.as_str());
                text
            },
            LoggingError::UnknownErrorMessage { message } => {
                let mut text = String::from_str("Unknown response error: ");
                text.append(message.as_str());
                text
            },
            LoggingError::UnknownError => String::from_str("Unknown response error."),
        }
    }
}

impl UnknownError for LoggingError {
    open spec fn spec_is_named_code(code: i64) -> bool {
        false
    }

    fn unknown_error_code(code: i64, message: String) -> (err: Self) {
        LoggingError::UnknownErrorCode { code, message }
    }

    fn unknown_error_message(message: String) -> (err: Self) {
        LoggingError::UnknownErrorMessage { message }
    }

    fn unknown_error() -> (err: Self) {
        LoggingError::UnknownError
    }

    fn from_error_code(code: i64) -> (err: Self) {
        let message = String::from_str("Unknown error");
        LoggingError::UnknownErrorCode { code, message }
    }
}

impl From<i64> for LoggingError {
    /// The error of a Wiki.js error code: its own variant where the type
    /// names the code, else an unknown-code error.
    fn from(code: i64) -> (err: Self)
        ensures
            err@ == spec_error_of_code::<LoggingError>(code),
    {
        LoggingError::from_error_code(code)
    }
}

/// `from` is specified by its own `ensures`, over the error's view: an
/// unknown-code error holds a `String`, which no spec function builds, so the
/// generic specification of `From` is not claimed.
impl vstd::std_specs::convert::FromSpecImpl<i64> for LoggingError {
    open spec fn obeys_from_spec() -> bool {
        false
    }

    open spec fn from_spec(code: i64) -> Self {
        LoggingError::UnknownError
    }
}

impl KnownErrorCodes for LoggingError {
    open spec fn spec_known_error_codes() -> Seq<i64> {
        Seq::empty()
    }

    open spec fn spec_is_known_error_code(code: i64) -> bool {
        false
    }

    fn known_error_codes() -> (codes: Vec<i64>) {
        let codes: Vec<i64> = Vec::new();
        proof {
            assert(codes@ =~= Self::spec_known_error_codes());
        }
        codes
    }

    fn is_known_error_code(code: i64) -> (known: bool) {
        false
    }
}

/// The codes that `LoggingError::known_error_codes` lists are exactly the codes that
/// `LoggingError::is_known_error_code` accepts.
pub proof fn lemma_known_error_codes_listed(code: i64)
    ensures
        LoggingError::spec_known_error_codes().contains(code) <==> LoggingError::spec_is_known_error_code(code),
{
}

/// A code is known to `LoggingError` exactly when the type has a variant of its own
/// for it: `LoggingError::from` gives the known error for the known codes and an
/// unknown-code error for every other code.
pub proof fn lemma_known_error_codes_named(code: i64)
    ensures
        LoggingError::spec_is_known_error_code(code) <==> LoggingError::spec_is_named_code(code),
        spec_error_of_code::<LoggingError>(code) == (if LoggingError::spec_is_known_error_code(code) {
            ApiErrorView::Known(code)
        } else {
            ApiErrorView::UnknownCode(code, unknown_code_message())
        }),
{
}

#[derive(Debug)]
pub struct Logger {
    pub is_enabled: Boolean,
    pub key: String,
    pub title: String,
    pub description: Option<String>,
    pub logo: Option<String>,
    pub website: Option<String>,
    pub level: Option<String>,
    pub config: Option<Vec<Option<KeyValuePair>>>,
}

#[derive(Debug)]
pub struct LoggerInput {
    pub is_enabled: Boolean,
    pub key: String,
    pub level: String,
    pub config: Option<Vec<Option<KeyValuePairInput>>>,
}

/// Reads the answer to the `LoggerList` query: the listed items, without the absent ones, or the error
/// that the answer or the transport reports.
pub fn logger_list(response: Result<Response<logger_list::ResponseData>, String>) -> (result: Result<Vec<Logger>, LoggingError>)
    requires
        response matches Ok(body) ==> (logger_list::spec_payload(body.data) is None ==> first_error_code_readable(
            body.errors,
        )),
    ensures
        match response {
            Err(message) => result matches Err(err) && err@ == ApiErrorView::UnknownMessage(message@),
            Ok(body) => match logger_list::spec_payload(body.data) {
                Some(payload) => result matches Ok(items) && items@ == flatten_seq(payload@),
                None => result matches Err(err) && err@ == spec_classify_response_error::<LoggingError>(
                    body.errors,
                ),
            },
        },
{
    let body = match response {
        Ok(body) => body,
        Err(message) => {
            return Err(LoggingError::UnknownErrorMessage { message });
        },
    };
    let Response { data, errors } = body;
    if let Some(data) = data {
        if let Some(logging) = data.logging {
            if let Some(loggers) = logging.loggers {
                return Ok(flatten(loggers));
            }
        }
    }
    Err(classify_response_error(errors))
}

/// Reads the answer to the `LoggerUpdate` mutation: success where the server reports it, or the error
/// that the answer or the transport reports.
pub fn logger_update(response: Result<Response<logger_update::ResponseData>, String>) -> (result: Result<(), LoggingError>)
    requires
        response matches Ok(body) ==> (logger_update::spec_payload(body.data) is None ==> first_error_code_readable(
            body.errors,
        )),
    ensures
        match response {
            Err(message) => result matches Err(err) && err@ == ApiErrorView::UnknownMessage(message@),
            Ok(body) => match logger_update::spec_payload(body.data) {
                Some(payload) => if payload.succeeded {
                    result is Ok
                } else {
                    result matches Err(err) && err@ == spec_classify_response_status_error::<LoggingError>(payload)
                },
                None => result matches Err(err) && err@ == spec_classify_response_error::<LoggingError>(
                    body.errors,
                ),
            },
        },
{
    let body = match response {
        Ok(body) => body,
        Err(message) => {
            return Err(LoggingError::UnknownErrorMessage { message });
        },
    };
    let Response { data, errors } = body;
    if let Some(data) = data {
        if let Some(logging) = data.logging {
            if let Some(update_loggers) = logging.update_loggers {
                if let Some(response_result) = update_loggers.response_result {
                    if response_result.succeeded {
                        return Ok(());
                    } else {
                        return Err(classify_response_status_error(response_result));
                    }
                }
            }
        }
    }
    Err(classify_response_error(errors))
}

} // verus!
