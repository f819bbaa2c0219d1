//! Locales and translations.

pub mod locale_config_get;
pub mod locale_download;
pub mod locale_list;
pub mod locale_update;
pub mod translation_list;

use vstd::prelude::*;

use crate::common::{ApiErrorView, Boolean, Date, Int, KnownErrorCodes, Response, UnknownError, classify_response_error, classify_response_status_error, decimal, first_error_code_readable, flatten, flatten_seq, int_to_string, spec_classify_response_error, spec_classify_response_status_error, spec_error_of_code, unknown_code_message};

verus! {

/// The errors of the endpoints of this module, named after the Wiki.js
/// error codes they stand for.
#[derive(Debug, PartialEq)]
pub enum LocaleError {
    LocaleGenericError,
    LocaleInvalidNamespace,
    UnknownErrorCode { code: i64, message: String },
    UnknownErrorMessage { message: String },
    UnknownError,
}

impl View for LocaleError {
    type V = ApiErrorView;

    open spec fn view(&self) -> ApiErrorView {
        match self {
            LocaleError::LocaleGenericError => ApiErrorView::Known(5001),
            LocaleError::LocaleInvalidNamespace => ApiErrorView::Known(5002),
            LocaleError::UnknownErrorCode { code, message } => ApiErrorView::UnknownCode(*code, message@),
            LocaleError::UnknownErrorMessage { message } => ApiErrorView::UnknownMessage(message@),
            LocaleError::UnknownError => ApiErrorView::Unknown,
        }
    }
}

impl LocaleError {
    /// The text that describes the error.
    pub open spec fn spec_to_string(&self) -> Seq<char> {
        match self {
            LocaleError::LocaleGenericError => "An unexpected error occurred during locale operation."@,
            LocaleError::LocaleInvalidNamespace => "Invalid locale or namespace."@,
            LocaleError::UnknownErrorCode { code, message } => "Unknown response error code: "@ + decimal(*code as int) + ": "@ + message@,
            LocaleError::UnknownErrorMessage { message } => "Unknown response error: "@ + message@,
            LocaleError::UnknownError => "Unknown response error."@,
        }
    }

    /// The text that describes the error.
    pub fn to_string(&self) -> (text: String)
        ensures
            text@ == self.spec_to_string(),
    {
        match self {
            LocaleError::LocaleGenericError => String::from_str("An unexpected error occurred during locale operation."),
            LocaleError::LocaleInvalidNamespace => String::from_str("Invalid locale or namespace."),
            LocaleError::UnknownErrorCode { code, message } => {
                let mut text = String::from_str("Unknown response error code: ");
                text.append(int_to_string(*code).as_str());
                text.append(": ");
                text.append(message.as_str());
                text
            },
            LocaleError::UnknownErrorMessage { message } => {
                let mut text = String::from_str("Unknown response error: ");
                text.append(message.as_str());
                text
            },
            LocaleError::UnknownError => String::from_str("Unknown response error."),
        }
    }
}

impl UnknownError for LocaleError {
    open spec fn spec_is_named_code(code: i64) -> bool {
        5001 <= code <= 5002
    }

    fn unknown_error_code(code: i64, message: String) -> (err: Self) {
        LocaleError::UnknownErrorCode { code, message }
    }

    fn unknown_error_message(message: String) -> (err: Self) {
        LocaleError::UnknownErrorMessage { message }
    }

    fn unknown_error() -> (err: Self) {
        LocaleError::UnknownError
    }

    fn from_error_code(code: i64) -> (err: Self) {
        match code {
            5001 => LocaleError::LocaleGenericError,
            5002 => LocaleError::LocaleInvalidNamespace,
            _ => {
                let message = String::from_str("Unknown error");
                LocaleError::UnknownErrorCode { code, message }
            },
        }
    }
}

impl From<i64> for LocaleError {
    /// The error of a Wiki.js error code: its own variant where the type
    /// names the code, else an unknown-code error.
    fn from(code: i64) -> (err: Self)
        ensures
            err@ == spec_error_of_code::<LocaleError>(code),
    {
        LocaleError::from_error_code(code)
    }
}

/// `from` is specified by its own `ensures`, over the error's view: an
/// unknown-code error holds a `String`, which no spec function builds, so the
/// generic specification of `From` is not claimed.
impl vstd::std_specs::convert::FromSpecImpl<i64> for LocaleError {
    open spec fn obeys_from_spec() -> bool {
        false
    }

    open spec fn from_spec(code: i64) -> Self {
        LocaleError::UnknownError
    }
}

impl KnownErrorCodes for LocaleError {
    open spec fn spec_known_error_codes() -> Seq<i64> {
        seq![5001, 5002]
    }

    open spec fn spec_is_known_error_code(code: i64) -> bool {
        5001 <= code <= 5002
    }

    fn known_error_codes() -> (codes: Vec<i64>) {
        let codes = vec![5001, 5002];
        proof {
            assert(codes@ =~= Self::spec_known_error_codes());
        }
        codes
    }

    fn is_known_error_code(code: i64) -> (known: bool) {
        5001 <= code && code <= 5002
    }
}

/// The codes that `LocaleError::known_error_codes` lists are exactly the codes that
/// `LocaleError::is_known_error_code` accepts.
pub proof fn lemma_known_error_codes_listed(code: i64)
    ensures
        LocaleError::spec_known_error_codes().contains(code) <==> LocaleError::spec_is_known_error_code(code),
{
    let codes = LocaleError::spec_known_error_codes();
    if LocaleError::spec_is_known_error_code(code) {
        let i: int = code - 5001;
        assert(codes[i] == code);
    }
}

/// A code is known to `LocaleError` exactly when the type has a variant of its own
/// for it: `LocaleError::from` gives the known error for the known codes and an
/// unknown-code error for every other code.
pub proof fn lemma_known_error_codes_named(code: i64)
    ensures
        LocaleError::spec_is_known_error_code(code) <==> LocaleError::spec_is_named_code(code),
        spec_error_of_code::<LocaleError>(code) == (if LocaleError::spec_is_known_error_code(code) {
            ApiErrorView::Known(code)
        } else {
            ApiErrorView::UnknownCode(code, unknown_code_message())
        }),
{
}

#[derive(Debug)]
pub struct Locale {
    pub availability: Int,
    pub code: String,
    pub created_at: Date,
    pub install_date: Option<Date>,
    pub is_installed: Boolean,
    pub is_rtl: Boolean,
    pub name: String,
    pub native_name: String,
    pub updated_at: Date,
}

#[derive(Debug)]
pub struct LocaleConfig {
    pub locale: String,
    pub auto_update: Boolean,
    pub namespacing: Boolean,
    pub namespaces: Vec<Option<String>>,
}

#[derive(Debug)]
pub struct Translation {
    pub key: String,
    pub value: String,
}

/// Reads the answer to the `LocaleList` query: the listed items, without the absent ones, or the error
/// that the answer or the transport reports.
pub fn locale_list(response: Result<Response<locale_list::ResponseData>, String>) -> (result: Result<Vec<Locale>, LocaleError>)
    requires
        response matches Ok(body) ==> (locale_list::spec_payload(body.data) is None ==> first_error_code_readable(
            body.errors,
        )),
    ensures
        match response {
            Err(message) => result matches Err(err) && err@ == ApiErrorView::UnknownMessage(message@),
            Ok(body) => match locale_list::spec_payload(body.data) {
                Some(payload) => result matches Ok(items) && items@ == flatten_seq(payload@),
                None => result matches Err(err) && err@ == spec_classify_response_error::<LocaleError>(
                    body.errors,
                ),
            },
        },
{
    let body = match response {
        Ok(body) => body,
        Err(message) => {
            return Err(LocaleError::UnknownErrorMessage { message });
        },
    };
    let Response { data, errors } = body;
    if let Some(data) = data {
        if let Some(localization) = data.localization {
            if let Some(locales) = localization.locales {
                return Ok(flatten(locales));
            }
        }
    }
    Err(classify_response_error(errors))
}

/// Reads the answer to the `LocaleConfigGet` query: what it asked for, or the error
/// that the answer or the transport reports.
pub fn locale_config_get(response: Result<Response<locale_config_get::ResponseData>, String>) -> (result: Result<LocaleConfig, LocaleError>)
    requires
        response matches Ok(body) ==> (locale_config_get::spec_payload(body.data) is None ==> first_error_code_readable(
            body.errors,
        )),
    ensures
        match response {
            Err(message) => result matches Err(err) && err@ == ApiErrorView::UnknownMessage(message@),
            Ok(body) => match locale_config_get::spec_payload(body.data) {
                Some(payload) => result matches Ok(value) && value == payload,
                None => result matches Err(err) && err@ == spec_classify_response_error::<LocaleError>(
                    body.errors,
                ),
            },
        },
{
    let body = match response {
        Ok(body) => body,
        Err(message) => {
            return Err(LocaleError::UnknownErrorMessage { message });
        },
    };
    let Response { data, errors } = body;
    if let Some(data) = data {
        if let Some(localization) = data.localization {
            if let Some(config) = localization.config {
                return Ok(config);
            }
        }
    }
    Err(classify_response_error(errors))
}

/// Reads the answer to the `TranslationList` query: the listed items, without the absent ones, or the error
/// that the answer or the transport reports.
pub fn translation_list(response: Result<Response<translation_list::ResponseData>, String>) -> (result: Result<Vec<Translation>, LocaleError>)
    requires
        response matches Ok(body) ==> (translation_list::spec_payload(body.data) is None ==> first_error_code_readable(
            body.errors,
        )),
    ensures
        match response {
            Err(message) => result matches Err(err) && err@ == ApiErrorView::UnknownMessage(message@),
            Ok(body) => match translation_list::spec_payload(body.data) {
                Some(payload) => result matches Ok(items) && items@ == flatten_seq(payload@),
                None => result matches Err(err) && err@ == spec_classify_response_error::<LocaleError>(
                    body.errors,
                ),
            },
        },
{
    let body = match response {
        Ok(body) => body,
        Err(message) => {
            return Err(LocaleError::UnknownErrorMessage { message });
        },
    };
    let Response { data, errors } = body;
    if let Some(data) = data {
        if let Some(localization) = data.localization {
            if let Some(translations) = localization.translations {
                return Ok(flatten(translations));
            }
        }
    }
    Err(classify_response_error(errors))
}

/// Reads the answer to the `LocaleDownload` mutation: success where the server reports it, or the error
/// that the answer or the transport reports.
pub fn locale_download(response: Result<Response<locale_download::ResponseData>, String>) -> (result: Result<(), LocaleError>)
    requires
        response matches Ok(body) ==> (locale_download::spec_payload(body.data) is None ==> first_error_code_readable(
            body.errors,
        )),
    ensures
        match response {
            Err(message) => result matches Err(err) && err@ == ApiErrorView::UnknownMessage(message@),
            Ok(body) => match locale_download::spec_payload(body.data) {
                Some(payload) => if payload.succeeded {
                    result is Ok
                } else {
                    result matches Err(err) && err@ == spec_classify_response_status_error::<LocaleError>(payload)
                },
                None => result matches Err(err) && err@ == spec_classify_response_error::<LocaleError>(
                    body.errors,
                ),
            },
        },
{
    let body = match response {
        Ok(body) => body,
        Err(message) => {
            return Err(LocaleError::UnknownErrorMessage { message });
        },
    };
    let Response { data, errors } = body;
    if let Some(data) = data {
        if let Some(localization) = data.localization {
            if let Some(download_locale) = localization.download_locale {
                if let Some(response_result) = download_locale.response_result {
                    if response_result.succeeded {
                        return Ok(());
                    } else {
                        return Err(classify_response_status_error(response_result));
                    }
                }
            }
        }
    }
    Err(classify_response_error(errors))
}

/// Reads the answer to the `LocaleUpdate` mutation: success where the server reports it, or the error
/// that the answer or the transport reports.
pub fn locale_update(response: Result<Response<locale_update::ResponseData>, String>) -> (result: Result<(), LocaleError>)
    requires
        response matches Ok(body) ==> (locale_update::spec_payload(body.data) is None ==> first_error_code_readable(
            body.errors,
        )),
    ensures
        match response {
            Err(message) => result matches Err(err) && err@ == ApiErrorView::UnknownMessage(message@),
            Ok(body) => match locale_update::spec_payload(body.data) {
                Some(payload) => if payload.succeeded {
                    result is Ok
                } else {
                    result matches Err(err) && err@ == spec_classify_response_status_error::<LocaleError>(payload)
                },
                None => result matches Err(err) && err@ == spec_classify_response_error::<LocaleError>(
                    body.errors,
                ),
            },
        },
{
    let body = match response {
        Ok(body) => body,
        Err(message) => {
            return Err(LocaleError::UnknownErrorMessage { message });
        },
    };
    let Response { data, errors } = body;
    if let Some(data) = data {
        if let Some(localization) = data.localization {
            if let Some(update_locale) = localization.update_locale {
                if let Some(response_result) = update_locale.response_result {
                    if response_result.succeeded {
                        return Ok(());
                    } else {
                        return Err(classify_response_status_error(response_result));
                    }
                }
            }
        }
    }
    Err(classify_response_error(errors))
}

} // verus!
