//! Themes.

pub mod theme_config_get;
pub mod theme_config_update;
pub mod theme_list;

use vstd::prelude::*;

use crate::common::{ApiErrorView, Boolean, KnownErrorCodes, Response, UnknownError, classify_response_error, classify_response_status_error, decimal, first_error_code_readable, flatten, flatten_seq, int_to_string, spec_classify_response_error, spec_classify_response_status_error, spec_error_of_code, unknown_code_message};

verus! {

/// The errors of the endpoints of this module, named after the Wiki.js
/// error codes they stand for.
#[derive(Debug, PartialEq)]
pub enum ThemeError {
    UnknownErrorCode { code: i64, message: String },
    UnknownErrorMessage { message: String },
    UnknownError,
}

impl View for ThemeError {
    type V = ApiErrorView;

    open spec fn view(&self) -> ApiErrorView {
        match self {
            ThemeError::UnknownErrorCode { code, message } => ApiErrorView::UnknownCode(*code, message@),
            ThemeError::UnknownErrorMessage { message } => ApiErrorView::UnknownMessage(message@),
            ThemeError::UnknownError => ApiErrorView::Unknown,
        }
    }
}

impl ThemeError {
    /// The text that describes the error.
    pub open spec fn spec_to_string(&self) -> Seq<char> {
        match self {
            ThemeError::UnknownErrorCode { code, message } => "Unknown response error code: "@ + decimal(*code as int) + ": "@ + message@,
            ThemeError::UnknownErrorMessage { message } => "Unknown response error: "@ + message@,
            ThemeError::UnknownError => "Unknown response error."@,
        }
    }

    /// The text that describes the error.
    pub fn to_string(&self) -> (text: String)
        ensures
            text@ == self.spec_to_string(),
    {
        match self {
            ThemeError::UnknownErrorCode { code, message } => {
                let mut text = String::from_str("Unknown response error code: ");
                text.append(int_to_string(*code).as_str());
                text.append(": ");
                text.append(message.as_str());
                text
            },
            ThemeError::UnknownErrorMessage { message } => {
                let mut text = String::from_str("Unknown response error: ");
                text.append(message.as_str());
                text
            },
            ThemeError::UnknownError => String::from_str("Unknown response error."),
        }
    }
}

impl UnknownError for ThemeError {
    open spec fn spec_is_named_code(code: i64) -> bool {
        false
    }

    fn unknown_error_code(code: i64, message: String) -> (err: Self) {
        ThemeError::UnknownErrorCode { code, message }
    }

    fn unknown_error_message(message: String) -> (err: Self) {
        ThemeError::UnknownErrorMessage { message }
    }

    fn unknown_error() -> (err: Self) {
        ThemeError::UnknownError
    }

    fn from_error_code(code: i64) -> (err: Self) {
        let message = String::from_str("Unknown error");
        ThemeError::UnknownErrorCode { code, message }
    }
}

impl From<i64> for ThemeError {
    /// The error of a Wiki.js error code: its own variant where the type
    /// names the code, else an unknown-code error.
    fn from(code: i64) -> (err: Self)
        ensures
            err@ == spec_error_of_code::<ThemeError>(code),
    {
        ThemeError::from_error_code(code)
    }
}

/// `from` is specified by its own `ensures`, over the error's view: an
/// unknown-code error holds a `String`, which no spec function builds, so the
/// generic specification of `From` is not claimed.
impl vstd::std_specs::convert::FromSpecImpl<i64> for ThemeError {
    open spec fn obeys_from_spec() -> bool {
        false
    }

    open spec fn from_spec(code: i64) -> Self {
        ThemeError::UnknownError
    }
}

impl KnownErrorCodes for ThemeError {
    open spec fn spec_known_error_codes() -> Seq<i64> {
        Seq::empty()
    }

    open spec fn spec_is_known_error_code(code: i64) -> bool {
        false
    }

    fn known_error_codes() -> (codes: Vec<i64>) {
        let codes: Vec<i64> = Vec::new();
        proof {
            assert(codes@ =~= Self::spec_known_error_codes());
        }
        codes
    }

    fn is_known_error_code(code: i64) -> (known: bool) {
        false
    }
}

/// The codes that `ThemeError::known_error_codes` lists are exactly the codes that
/// `ThemeError::is_known_error_code` accepts.
pub proof fn lemma_known_error_codes_listed(code: i64)
    ensures
        ThemeError::spec_known_error_codes().contains(code) <==> ThemeError::spec_is_known_error_code(code),
{
}

/// A code is known to `ThemeError` exactly when the type has a variant of its own
/// for it: `ThemeError::from` gives the known error for the known codes and an
/// unknown-code error for every other code.
pub proof fn lemma_known_error_codes_named(code: i64)
    ensures
        ThemeError::spec_is_known_error_code(code) <==> ThemeError::spec_is_named_code(code),
        spec_error_of_code::<ThemeError>(code) == (if ThemeError::spec_is_known_error_code(code) {
            ApiErrorView::Known(code)
        } else {
            ApiErrorView::UnknownCode(code, unknown_code_message())
        }),
{
}

#[derive(Debug)]
pub struct Theme {
    pub key: Option<String>,
    pub title: Option<String>,
    pub author: Option<String>,
}

#[derive(Debug)]
pub struct ThemingConfig {
    pub theme: String,
    pub iconset: String,
    pub dark_mode: Boolean,
    pub toc_position: Option<String>,
    pub inject_css: Option<String>,
    pub inject_head: Option<String>,
    pub inject_body: Option<String>,
}

/// Reads the answer to the `ThemeList` query: the listed items, without the absent ones, or the error
/// that the answer or the transport reports.
pub fn theme_list(response: Result<Response<theme_list::ResponseData>, String>) -> (result: Result<Vec<Theme>, ThemeError>)
    requires
        response matches Ok(body) ==> (theme_list::spec_payload(body.data) is None ==> first_error_code_readable(
            body.errors,
        )),
    ensures
        match response {
            Err(message) => result matches Err(err) && err@ == ApiErrorView::UnknownMessage(message@),
            Ok(body) => match theme_list::spec_payload(body.data) {
                Some(payload) => result matches Ok(items) && items@ == flatten_seq(payload@),
                None => result matches Err(err) && err@ == spec_classify_response_error::<ThemeError>(
                    body.errors,
                ),
            },
        },
{
    let body = match response {
        Ok(body) => body,
        Err(message) => {
            return Err(ThemeError::UnknownErrorMessage { message });
        },
    };
    let Response { data, errors } = body;
    if let Some(data) = data {
        if let Some(theming) = data.theming {
            if let Some(themes) = theming.themes {
                return Ok(flatten(themes));
            }
        }
    }
    Err(classify_response_error(errors))
}

/// Reads the answer to the `ThemeConfigGet` query: what it asked for, or the error
/// that the answer or the transport reports.
pub fn theme_config_get(response: Result<Response<theme_config_get::ResponseData>, String>) -> (result: Result<ThemingConfig, ThemeError>)
    requires
        response matches Ok(body) ==> (theme_config_get::spec_payload(body.data) is None ==> first_error_code_readable(
            body.errors,
        )),
    ensures
        match response {
            Err(message) => result matches Err(err) && err@ == ApiErrorView::UnknownMessage(message@),
            Ok(body) => match theme_config_get::spec_payload(body.data) {
                Some(payload) => result matches Ok(value) && value == payload,
                None => result matches Err(err) && err@ == spec_classify_response_error::<ThemeError>(
                    body.errors,
                ),
            },
        },
{
    let body = match response {
        Ok(body) => body,
        Err(message) => {
            return Err(ThemeError::UnknownErrorMessage { message });
        },
    };
    let Response { data, errors } = body;
    if let Some(data) = data {
        if let Some(theming) = data.theming {
            if let Some(config) = theming.config {
                return Ok(config);
            }
        }
    }
    Err(classify_response_error(errors))
}

/// Reads the answer to the `ThemeConfigUpdate` mutation: success where the server reports it, or the error
/// that the answer or the transport reports.
pub fn theme_config_update(response: Result<Response<theme_config_update::ResponseData>, String>) -> (result: Result<(), ThemeError>)
    requires
        response matches Ok(body) ==> (theme_config_update::spec_payload(body.data) is None ==> first_error_code_readable(
            body.errors,
        )),
    ensures
        match response {
            Err(message) => result matches Err(err) && err@ == ApiErrorView::UnknownMessage(message@),
            Ok(body) => match theme_config_update::spec_payload(body.data) {
                Some(payload) => if payload.succeeded {
                    result is Ok
                } else {
                    result matches Err(err) && err@ == spec_classify_response_status_error::<ThemeError>(payload)
                },
                None => result matches Err(err) && err@ == spec_classify_response_error::<ThemeError>(
                    body.errors,
                ),
            },
        },
{
    let body = match response {
        Ok(body) => body,
        Err(message) => {
            return Err(ThemeError::UnknownErrorMessage { message });
        },
    };
    let Response { data, errors } = body;
    if let Some(data) = data {
        if let Some(theming) = data.theming {
            if let Some(set_config) = theming.set_config {
                if let Some(response_result) = set_config.response_result {
                    if response_result.succeeded {
                        return Ok(());
                    } else {
                        return Err(classify_response_status_error(response_result));
                    }
                }
            }
        }
    }
    Err(classify_response_error(errors))
}

} // verus!
