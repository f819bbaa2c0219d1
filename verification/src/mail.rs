//! Mail settings.

pub mod mail_config_get;
pub mod mail_config_update;
pub mod mail_send_test;

use vstd::prelude::*;

use crate::common::{ApiErrorView, Boolean, Int, KnownErrorCodes, Response, UnknownError, classify_response_error, classify_response_status_error, decimal, first_error_code_readable, int_to_string, spec_classify_response_error, spec_classify_response_status_error, spec_error_of_code, unknown_code_message};

verus! {

/// The errors of the endpoints of this module, named after the Wiki.js
/// error codes they stand for.
#[derive(Debug, PartialEq)]
pub enum MailError {
    MailGenericError,
    MailNotConfigured,
    MailTemplateFailed,
    MailInvalidRecipient,
    UnknownErrorCode { code: i64, message: String },
    UnknownErrorMessage { message: String },
    UnknownError,
}

impl View for MailError {
    type V = ApiErrorView;

    open spec fn view(&self) -> ApiErrorView {
        match self {
            MailError::MailGenericError => ApiErrorView::Known(3001),
            MailError::MailNotConfigured => ApiErrorView::Known(3002),
            MailError::MailTemplateFailed => ApiErrorView::Known(3003),
            MailError::MailInvalidRecipient => ApiErrorView::Known(3004),
            MailError::UnknownErrorCode { code, message } => ApiErrorView::UnknownCode(*code, message@),
            MailError::UnknownErrorMessage { message } => ApiErrorView::UnknownMessage(message@),
            MailError::UnknownError => ApiErrorView::Unknown,
        }
    }
}

impl MailError {
    /// The text that describes the error.
    pub open spec fn spec_to_string(&self) -> Seq<char> {
        match self {
            MailError::MailGenericError => "An unexpected error occurred during mail operation."@,
            MailError::MailNotConfigured => "The mail configuration is incomplete or invalid."@,
            MailError::MailTemplateFailed => "Mail template failed to load."@,
            MailError::MailInvalidRecipient => "The recipient email address is invalid."@,
            MailError::UnknownErrorCode { code, message } => "Unknown response error code: "@ + decimal(*code as int) + ": "@ + message@,
            MailError::UnknownErrorMessage { message } => "Unknown response error: "@ + message@,
            MailError::UnknownError => "Unknown response error."@,
        }
    }

    /// The text that describes the error.
    pub fn to_string(&self) -> (text: String)
        ensures
            text@ == self.spec_to_string(),
    {
        match self {
            MailError::MailGenericError => String::from_str("An unexpected error occurred during mail operation."),
            MailError::MailNotConfigured => String::from_str("The mail configuration is incomplete or invalid."),
            MailError::MailTemplateFailed => String::from_str("Mail template failed to load."),
            MailError::MailInvalidRecipient => String::from_str("The recipient email address is invalid."),
            MailError::UnknownErrorCode { code, message } => {
                let mut text = String::from_str("Unknown response error code: ");
                text.append(int_to_string(*code).as_str());
                text.append(": ");
                text.append(message.as_str());
                text
            },
            MailError::UnknownErrorMessage { message } => {
                let mut text = String::from_str("Unknown response error: ");
                text.append(message.as_str());
                text
            },
            MailError::UnknownError => String::from_str("Unknown response error."),
        }
    }
}

impl UnknownError for MailError {
    open spec fn spec_is_named_code(code: i64) -> bool {
        3001 <= code <= 3004
    }

    fn unknown_error_code(code: i64, message: String) -> (err: Self) {
        MailError::UnknownErrorCode { code, message }
    }

    fn unknown_error_message(message: String) -> (err: Self) {
        MailError::UnknownErrorMessage { message }
    }

    fn unknown_error() -> (err: Self) {
        MailError::UnknownError
    }

    fn from_error_code(code: i64) -> (err: Self) {
        match code {
            3001 => MailError::MailGenericError,
            3002 => MailError::MailNotConfigured,
            3003 => MailError::MailTemplateFailed,
            3004 => MailError::MailInvalidRecipient,
            _ => {
                let message = String::from_str("Unknown error");
                MailError::UnknownErrorCode { code, message }
            },
        }
    }
}

impl From<i64> for MailError {
    /// The error of a Wiki.js error code: its own variant where the type
    /// names the code, else an unknown-code error.
    fn from(code: i64) -> (err: Self)
        ensures
            err@ == spec_error_of_code::<MailError>(code),
    {
        MailError::from_error_code(code)
    }
}

/// `from` is specified by its own `ensures`, over the error's view: an
/// unknown-code error holds a `String`, which no spec function builds, so the
/// generic specification of `From` is not claimed.
impl vstd::std_specs::convert::FromSpecImpl<i64> for MailError {
    open spec fn obeys_from_spec() -> bool {
        false
    }

    open spec fn from_spec(code: i64) -> Self {
        MailError::UnknownError
    }
}

impl KnownErrorCodes for MailError {
    open spec fn spec_known_error_codes() -> Seq<i64> {
        seq![3001, 3002, 3003, 3004]
    }

    open spec fn spec_is_known_error_code(code: i64) -> bool {
        3001 <= code <= 3004
    }

    fn known_error_codes() -> (codes: Vec<i64>) {
        let codes = vec![3001, 3002, 3003, 3004];
        proof {
            assert(codes@ =~= Self::spec_known_error_codes());
        }
        codes
    }

    fn is_known_error_code(code: i64) -> (known: bool) {
        3001 <= code && code <= 3004
    }
}

/// The codes that `MailError::known_error_codes` lists are exactly the codes that
/// `MailError::is_known_error_code` accepts.
pub proof fn lemma_known_error_codes_listed(code: i64)
    ensures
        MailError::spec_known_error_codes().contains(code) <==> MailError::spec_is_known_error_code(code),
{
    let codes = MailError::spec_known_error_codes();
    if MailError::spec_is_known_error_code(code) {
        let i: int = code - 3001;
        assert(codes[i] == code);
    }
}

/// A code is known to `MailError` exactly when the type has a variant of its own
/// for it: `MailError::from` gives the known error for the known codes and an
/// unknown-code error for every other code.
pub proof fn lemma_known_error_codes_named(code: i64)
    ensures
        MailError::spec_is_known_error_code(code) <==> MailError::spec_is_named_code(code),
        spec_error_of_code::<MailError>(code) == (if MailError::spec_is_known_error_code(code) {
            ApiErrorView::Known(code)
        } else {
            ApiErrorView::UnknownCode(code, unknown_code_message())
        }),
{
}

#[derive(Debug)]
pub struct MailConfig {
    pub sender_name: Option<String>,
    pub sender_email: Option<String>,
    pub host: Option<String>,
    pub port: Option<Int>,
    pub name: Option<String>,
    pub secure: Option<Boolean>,
    pub verify_ssl: Option<Boolean>,
    pub user: Option<String>,
    pub pass: Option<String>,
    pub use_dkim: Option<Boolean>,
    pub dkim_domain_name: Option<String>,
    pub dkim_key_selector: Option<String>,
    pub dkim_private_key: Option<String>,
}

/// Reads the answer to the `MailConfigGet` query: what it asked for, or the error
/// that the answer or the transport reports.
pub fn mail_config_get(response: Result<Response<mail_config_get::ResponseData>, String>) -> (result: Result<MailConfig, MailError>)
    requires
        response matches Ok(body) ==> (mail_config_get::spec_payload(body.data) is None ==> first_error_code_readable(
            body.errors,
        )),
    ensures
        match response {
            Err(message) => result matches Err(err) && err@ == ApiErrorView::UnknownMessage(message@),
            Ok(body) => match mail_config_get::spec_payload(body.data) {
                Some(payload) => result matches Ok(value) && value == payload,
                None => result matches Err(err) && err@ == spec_classify_response_error::<MailError>(
                    body.errors,
                ),
            },
        },
{
    let body = match response {
        Ok(body) => body,
        Err(message) => {
            return Err(MailError::UnknownErrorMessage { message });
        },
    };
    let Response { data, errors } = body;
    if let Some(data) = data {
        if let Some(mail) = data.mail {
            if let Some(config) = mail.config {
                return Ok(config);
            }
        }
    }
    Err(classify_response_error(errors))
}

/// Reads the answer to the `MailSendTest` mutation: success where the server reports it, or the error
/// that the answer or the transport reports.
pub fn mail_send_test(response: Result<Response<mail_send_test::ResponseData>, String>) -> (result: Result<(), MailError>)
    requires
        response matches Ok(body) ==> (mail_send_test::spec_payload(body.data) is None ==> first_error_code_readable(
            body.errors,
        )),
    ensures
        match response {
            Err(message) => result matches Err(err) && err@ == ApiErrorView::UnknownMessage(message@),
            Ok(body) => match mail_send_test::spec_payload(body.data) {
                Some(payload) => if payload.succeeded {
                    result is Ok
                } else {
                    result matches Err(err) && err@ == spec_classify_response_status_error::<MailError>(payload)
                },
                None => result matches Err(err) && err@ == spec_classify_response_error::<MailError>(
                    body.errors,
                ),
            },
        },
{
    let body = match response {
        Ok(body) => body,
        Err(message) => {
            return Err(MailError::UnknownErrorMessage { message });
        },
    };
    let Response { data, errors } = body;
    if let Some(data) = data {
        if let Some(mail) = data.mail {
            if let Some(send_test) = mail.send_test {
                if let Some(response_result) = send_test.response_result {
                    if response_result.succeeded {
                        return Ok(());
                    } else {
                        return Err(classify_response_status_error(response_result));
                    }
                }
            }
        }
    }
    Err(classify_response_error(errors))
}

/// Reads the answer to the `MailConfigUpdate` mutation: success where the server reports it, or the error
/// that the answer or the transport reports.
pub fn mail_config_update(response: Result<Response<mail_config_update::ResponseData>, String>) -> (result: Result<(), MailError>)
    requires
        response matches Ok(body) ==> (mail_config_update::spec_payload(body.data) is None ==> first_error_code_readable(
            body.errors,
        )),
    ensures
        match response {
            Err(message) => result matches Err(err) && err@ == ApiErrorView::UnknownMessage(message@),
            Ok(body) => match mail_config_update::spec_payload(body.data) {
                Some(payload) => if payload.succeeded {
                    result is Ok
                } else {
                    result matches Err(err) && err@ == spec_classify_response_status_error::<MailError>(payload)
                },
                None => result matches Err(err) && err@ == spec_classify_response_error::<MailError>(
                    body.errors,
                ),
            },
        },
{
    let body = match response {
        Ok(body) => body,
        Err(message) => {
            return Err(MailError::UnknownErrorMessage { message });
        },
    };
    let Response { data, errors } = body;
    if let Some(data) = data {
        if let Some(mail) = data.mail {
            if let Some(update_config) = mail.update_config {
                if let Some(response_result) = update_config.response_result {
                    if response_result.succeeded {
                        return Ok(());
                    } else {
                        return Err(classify_response_status_error(response_result));
                    }
                }
            }
        }
    }
    Err(classify_response_error(errors))
}

} // verus!
