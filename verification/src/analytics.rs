//! Analytics providers.

pub mod analytics_provider_list;

use vstd::prelude::*;

use crate::common::{ApiErrorView, Boolean, KeyValuePair, Response, UnknownError, classify_response_error, decimal, first_error_code_readable, flatten, flatten_seq, int_to_string, spec_classify_response_error, spec_error_of_code};

verus! {

/// The errors of the endpoints of this module, named after the Wiki.js
/// error codes they stand for.
#[derive(Debug, PartialEq)]
pub enum AnalyticsError {
    UnknownErrorCode { code: i64, message: String },
    UnknownErrorMessage { message: String },
    UnknownError,
}

impl View for AnalyticsError {
    type V = ApiErrorView;

    open spec fn view(&self) -> ApiErrorView {
        match self {
            AnalyticsError::UnknownErrorCode { code, message } => ApiErrorView::UnknownCode(*code, message@),
            AnalyticsError::UnknownErrorMessage { message } => ApiErrorView::UnknownMessage(message@),
            AnalyticsError::UnknownError => ApiErrorView::Unknown,
        }
    }
}

impl AnalyticsError {
    /// The text that describes the error.
    pub open spec fn spec_to_string(&self) -> Seq<char> {
        match self {
            AnalyticsError::UnknownErrorCode { code, message } => "Unknown response error code: "@ + decimal(*code as int) + ": "@ + message@,
            AnalyticsError::UnknownErrorMessage { message } => "Unknown response error: "@ + message@,
            AnalyticsError::UnknownError => "Unknown response error."@,
        }
    }

    /// The text that describes the error.
    pub fn to_string(&self) -> (text: String)
        ensures
            text@ == self.spec_to_string(),
    {
        match self {
            AnalyticsError::UnknownErrorCode { code, message } => {
                let mut text = String::from_str("Unknown response error code: ");
                text.append(int_to_string(*code).as_str());
                text.append(": ");
                text.append(message.as_str());
                text
            },
            AnalyticsError::UnknownErrorMessage { message } => {
                let mut text = String::from_str("Unknown response error: ");
                text.append(message.as_str());
                text
            },
            AnalyticsError::UnknownError => String::from_str("Unknown response error."),
        }
    }
}

impl UnknownError for AnalyticsError {
    open spec fn spec_is_named_code(code: i64) -> bool {
        false
    }

    fn unknown_error_code(code: i64, message: String) -> (err: Self) {
        AnalyticsError::UnknownErrorCode { code, message }
    }

    fn unknown_error_message(message: String) -> (err: Self) {
        AnalyticsError::UnknownErrorMessage { message }
    }

    fn unknown_error() -> (err: Self) {
        AnalyticsError::UnknownError
    }

    fn from_error_code(code: i64) -> (err: Self) {
        let message = String::from_str("Unknown error");
        AnalyticsError::UnknownErrorCode { code, message }
    }
}

impl From<i64> for AnalyticsError {
    /// The error of a Wiki.js error code: its own variant where the type
    /// names the code, else an unknown-code error.
    fn from(code: i64) -> (err: Self)
        ensures
            err@ == spec_error_of_code::<AnalyticsError>(code),
    {
        AnalyticsError::from_error_code(code)
    }
}

/// `from` is specified by its own `ensures`, over the error's view: an
/// unknown-code error holds a `String`, which no spec function builds, so the
/// generic specification of `From` is not claimed.
impl vstd::std_specs::convert::FromSpecImpl<i64> for AnalyticsError {
    open spec fn obeys_from_spec() -> bool {
        false
    }

    open spec fn from_spec(code: i64) -> Self {
        AnalyticsError::UnknownError
    }
}

#[derive(Debug)]
pub struct AnalyticsProvider {
    pub is_enabled: Boolean,
    pub key: String,
    pub props: Option<Vec<Option<String>>>,
    pub title: String,
    pub description: Option<String>,
    pub is_available: Option<Boolean>,
    pub logo: Option<String>,
    pub website: Option<String>,
    pub config: Option<Vec<Option<KeyValuePair>>>,
}

/// Reads the answer to the `AnalyticsProviderList` query: the listed items, without the absent ones, or the error
/// that the answer or the transport reports.
pub fn analytics_provider_list(response: Result<Response<analytics_provider_list::ResponseData>, String>) -> (result: Result<Vec<AnalyticsProvider>, AnalyticsError>)
    requires
        response matches Ok(body) ==> (analytics_provider_list::spec_payload(body.data) is None ==> first_error_code_readable(
            body.errors,
        )),
    ensures
        match response {
            Err(message) => result matches Err(err) && err@ == ApiErrorView::UnknownMessage(message@),
            Ok(body) => match analytics_provider_list::spec_payload(body.data) {
                Some(payload) => result matches Ok(items) && items@ == flatten_seq(payload@),
                None => result matches Err(err) && err@ == spec_classify_response_error::<AnalyticsError>(
                    body.errors,
                ),
            },
        },
{
    let body = match response {
        Ok(body) => body,
        Err(message) => {
            return Err(AnalyticsError::UnknownErrorMessage { message });
        },
    };
    let Response { data, errors } = body;
    if let Some(data) = data {
        if let Some(analytics) = data.analytics {
            if let Some(providers) = analytics.providers {
                return Ok(flatten(providers));
            }
        }
    }
    Err(classify_response_error(errors))
}

} // verus!
