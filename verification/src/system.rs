//! System flags, information and maintenance.

pub mod system_export_status_get;
pub mod system_extension_list;
pub mod system_flag_list;
pub mod system_flags_update;
pub mod system_https_certificate_renew;
pub mod system_https_redirection_set;
pub mod system_info_get;
pub mod system_upgrade_perform;
pub mod system_user_import_from_v1;
pub mod telemetry_client_id_reset;
pub mod telemetry_set;

use vstd::prelude::*;

use crate::common::{ApiErrorView, Boolean, Date, Int, KnownErrorCodes, Response, UnknownError, classify_response_error, classify_response_status_error, decimal, first_error_code_readable, flatten, flatten_seq, int_to_string, spec_classify_response_error, spec_classify_response_status_error, spec_error_of_code, unknown_code_message};

verus! {

/// The errors of the endpoints of this module, named after the Wiki.js
/// error codes they stand for.
#[derive(Debug, PartialEq)]
pub enum SystemError {
    SystemGenericError,
    SystemSSLDisabled,
    SystemSSLRenewInvalidProvider,
    SystemSSLLEUnavailable,
    UnknownErrorCode { code: i64, message: String },
    UnknownErrorMessage { message: String },
    UnknownError,
}

impl View for SystemError {
    type V = ApiErrorView;

    open spec fn view(&self) -> ApiErrorView {
        match self {
            SystemError::SystemGenericError => ApiErrorView::Known(7001),
            SystemError::SystemSSLDisabled => ApiErrorView::Known(7002),
            SystemError::SystemSSLRenewInvalidProvider => ApiErrorView::Known(7003),
            SystemError::SystemSSLLEUnavailable => ApiErrorView::Known(7004),
            SystemError::UnknownErrorCode { code, message } => ApiErrorView::UnknownCode(*code, message@),
            SystemError::UnknownErrorMessage { message } => ApiErrorView::UnknownMessage(message@),
            SystemError::UnknownError => ApiErrorView::Unknown,
        }
    }
}

impl SystemError {
    /// The text that describes the error.
    pub open spec fn spec_to_string(&self) -> Seq<char> {
        match self {
            SystemError::SystemGenericError => "An unexpected error occurred."@,
            SystemError::SystemSSLDisabled => "SSL is not enabled."@,
            SystemError::SystemSSLRenewInvalidProvider => "Current provider does not support SSL certificate renewal."@,
            SystemError::SystemSSLLEUnavailable => "Let's Encrypt is not initialized."@,
            SystemError::UnknownErrorCode { code, message } => "Unknown response error code: "@ + decimal(*code as int) + ": "@ + message@,
            SystemError::UnknownErrorMessage { message } => "Unknown response error: "@ + message@,
            SystemError::UnknownError => "Unknown response error."@,
        }
    }

    /// The text that describes the error.
    pub fn to_string(&self) -> (text: String)
        ensures
            text@ == self.spec_to_string(),
    {
        match self {
            SystemError::SystemGenericError => String::from_str("An unexpected error occurred."),
            SystemError::SystemSSLDisabled => String::from_str("SSL is not enabled."),
            SystemError::SystemSSLRenewInvalidProvider => String::from_str("Current provider does not support SSL certificate renewal."),
            SystemError::SystemSSLLEUnavailable => String::from_str("Let's Encrypt is not initialized."),
            SystemError::UnknownErrorCode { code, message } => {
                let mut text = String::from_str("Unknown response error code: ");
                text.append(int_to_string(*code).as_str());
                text.append(": ");
                text.append(message.as_str());
                text
            },
            SystemError::UnknownErrorMessage { message } => {
                let mut text = String::from_str("Unknown response error: ");
                text.append(message.as_str());
                text
            },
            SystemError::UnknownError => String::from_str("Unknown response error."),
        }
    }
}

impl UnknownError for SystemError {
    open spec fn spec_is_named_code(code: i64) -> bool {
        7001 <= code <= 7004
    }

    fn unknown_error_code(code: i64, message: String) -> (err: Self) {
        SystemError::UnknownErrorCode { code, message }
    }

    fn unknown_error_message(message: String) -> (err: Self) {
        SystemError::UnknownErrorMessage { message }
    }

    fn unknown_error() -> (err: Self) {
        SystemError::UnknownError
    }

    fn from_error_code(code: i64) -> (err: Self) {
        match code {
            7001 => SystemError::SystemGenericError,
            7002 => SystemError::SystemSSLDisabled,
            7003 => SystemError::SystemSSLRenewInvalidProvider,
            7004 => SystemError::SystemSSLLEUnavailable,
            _ => {
                let message = String::from_str("Unknown error");
                SystemError::UnknownErrorCode { code, message }
            },
        }
    }
}

impl From<i64> for SystemError {
    /// The error of a Wiki.js error code: its own variant where the type
    /// names the code, else an unknown-code error.
    fn from(code: i64) -> (err: Self)
        ensures
            err@ == spec_error_of_code::<SystemError>(code),
    {
        SystemError::from_error_code(code)
    }
}

/// `from` is specified by its own `ensures`, over the error's view: an
/// unknown-code error holds a `String`, which no spec function builds, so the
/// generic specification of `From` is not claimed.
impl vstd::std_specs::convert::FromSpecImpl<i64> for SystemError {
    open spec fn obeys_from_spec() -> bool {
        false
    }

    open spec fn from_spec(code: i64) -> Self {
        SystemError::UnknownError
    }
}

impl KnownErrorCodes for SystemError {
    open spec fn spec_known_error_codes() -> Seq<i64> {
        seq![7001, 7002, 7003, 7004]
    }

    open spec fn spec_is_known_error_code(code: i64) -> bool {
        7001 <= code <= 7004
    }

    fn known_error_codes() -> (codes: Vec<i64>) {
        let codes = vec![7001, 7002, 7003, 7004];
        proof {
            assert(codes@ =~= Self::spec_known_error_codes());
        }
        codes
    }

    fn is_known_error_code(code: i64) -> (known: bool) {
        7001 <= code && code <= 7004
    }
}

/// The codes that `SystemError::known_error_codes` lists are exactly the codes that
/// `SystemError::is_known_error_code` accepts.
pub proof fn lemma_known_error_codes_listed(code: i64)
    ensures
        SystemError::spec_known_error_codes().contains(code) <==> SystemError::spec_is_known_error_code(code),
{
    let codes = SystemError::spec_known_error_codes();
    if SystemError::spec_is_known_error_code(code) {
        let i: int = code - 7001;
        assert(codes[i] == code);
    }
}

/// A code is known to `SystemError` exactly when the type has a variant of its own
/// for it: `SystemError::from` gives the known error for the known codes and an
/// unknown-code error for every other code.
pub proof fn lemma_known_error_codes_named(code: i64)
    ensures
        SystemError::spec_is_known_error_code(code) <==> SystemError::spec_is_named_code(code),
        spec_error_of_code::<SystemError>(code) == (if SystemError::spec_is_known_error_code(code) {
            ApiErrorView::Known(code)
        } else {
            ApiErrorView::UnknownCode(code, unknown_code_message())
        }),
{
}

#[derive(Debug)]
pub struct SystemFlag {
    pub key: String,
    pub value: Boolean,
}

#[derive(Debug)]
pub struct SystemInfo {
    pub config_file: Option<String>,
    pub cpu_cores: Option<Int>,
    pub current_version: Option<String>,
    pub db_host: Option<String>,
    pub db_type: Option<String>,
    pub db_version: Option<String>,
    pub groups_total: Option<Int>,
    pub hostname: Option<String>,
    pub http_port: Option<Int>,
    pub http_redirection: Option<Boolean>,
    pub https_port: Option<Int>,
    pub latest_version: Option<String>,
    pub latest_version_release_date: Option<Date>,
    pub node_version: Option<String>,
    pub operating_system: Option<String>,
    pub pages_total: Option<Int>,
    pub platform: Option<String>,
    pub ram_total: Option<String>,
    pub ssl_domain: Option<String>,
    pub ssl_expiration_date: Option<Date>,
    pub ssl_provider: Option<String>,
    pub ssl_status: Option<String>,
    pub ssl_subscriber_email: Option<String>,
    pub tags_total: Option<Int>,
    pub telemetry: Option<Boolean>,
    pub telemetry_client_id: Option<String>,
    pub upgrade_capable: Option<Boolean>,
    pub users_total: Option<Int>,
    pub working_directory: Option<String>,
}

#[derive(Debug)]
pub struct SystemExtension {
    pub key: String,
    pub title: String,
    pub description: String,
    pub is_installed: Boolean,
    pub is_compatible: Boolean,
}

#[derive(Debug)]
pub struct SystemFlagInput {
    pub key: String,
    pub value: Boolean,
}

#[allow(non_camel_case_types, clippy::upper_case_acronyms)]
#[derive(Debug, Clone, Copy, PartialEq, Eq)]
pub enum SystemImportUsersGroupMode {
    MULTI,
    SINGLE,
    NONE,
}

/// Reads the answer to the `SystemFlagList` query: the listed items, without the absent ones, or the error
/// that the answer or the transport reports.
pub fn system_flag_list(response: Result<Response<system_flag_list::ResponseData>, String>) -> (result: Result<Vec<SystemFlag>, SystemError>)
    requires
        response matches Ok(body) ==> (system_flag_list::spec_payload(body.data) is None ==> first_error_code_readable(
            body.errors,
        )),
    ensures
        match response {
            Err(message) => result matches Err(err) && err@ == ApiErrorView::UnknownMessage(message@),
            Ok(body) => match system_flag_list::spec_payload(body.data) {
                Some(payload) => result matches Ok(items) && items@ == flatten_seq(payload@),
                None => result matches Err(err) && err@ == spec_classify_response_error::<SystemError>(
                    body.errors,
                ),
            },
        },
{
    let body = match response {
        Ok(body) => body,
        Err(message) => {
            return Err(SystemError::UnknownErrorMessage { message });
        },
    };
    let Response { data, errors } = body;
    if let Some(data) = data {
        if let Some(system) = data.system {
            if let Some(flags) = system.flags {
                return Ok(flatten(flags));
            }
        }
    }
    Err(classify_response_error(errors))
}

/// Reads the answer to the `SystemInfoGet` query: what it asked for, or the error
/// that the answer or the transport reports.
pub fn system_info_get(response: Result<Response<system_info_get::ResponseData>, String>) -> (result: Result<SystemInfo, SystemError>)
    requires
        response matches Ok(body) ==> (system_info_get::spec_payload(body.data) is None ==> first_error_code_readable(
            body.errors,
        )),
    ensures
        match response {
            Err(message) => result matches Err(err) && err@ == ApiErrorView::UnknownMessage(message@),
            Ok(body) => match system_info_get::spec_payload(body.data) {
                Some(payload) => result matches Ok(value) && value == payload,
                None => result matches Err(err) && err@ == spec_classify_response_error::<SystemError>(
                    body.errors,
                ),
            },
        },
{
    let body = match response {
        Ok(body) => body,
        Err(message) => {
            return Err(SystemError::UnknownErrorMessage { message });
        },
    };
    let Response { data, errors } = body;
    if let Some(data) = data {
        if let Some(system) = data.system {
            if let Some(info) = system.info {
                return Ok(info);
            }
        }
    }
    Err(classify_response_error(errors))
}

/// Reads the answer to the `SystemExtensionList` query: the listed items, without the absent ones, or the error
/// that the answer or the transport reports.
pub fn system_extension_list(response: Result<Response<system_extension_list::ResponseData>, String>) -> (result: Result<Vec<SystemExtension>, SystemError>)
    requires
        response matches Ok(body) ==> (system_extension_list::spec_payload(body.data) is None ==> first_error_code_readable(
            body.errors,
        )),
    ensures
        match response {
            Err(message) => result matches Err(err) && err@ == ApiErrorView::UnknownMessage(message@),
            Ok(body) => match system_extension_list::spec_payload(body.data) {
                Some(payload) => result matches Ok(items) && items@ == flatten_seq(payload@),
                None => result matches Err(err) && err@ == spec_classify_response_error::<SystemError>(
                    body.errors,
                ),
            },
        },
{
    let body = match response {
        Ok(body) => body,
        Err(message) => {
            return Err(SystemError::UnknownErrorMessage { message });
        },
    };
    let Response { data, errors } = body;
    if let Some(data) = data {
        if let Some(system) = data.system {
            if let Some(extensions) = system.extensions {
                return Ok(flatten(extensions));
            }
        }
    }
    Err(classify_response_error(errors))
}

/// Reads the answer to the `SystemExportStatusGet` query: success where the server reports it, or the error
/// that the answer or the transport reports.
pub fn system_export_status_get(response: Result<Response<system_export_status_get::ResponseData>, String>) -> (result: Result<(), SystemError>)
    requires
        response matches Ok(body) ==> (system_export_status_get::spec_payload(body.data) is None ==> first_error_code_readable(
            body.errors,
        )),
    ensures
        match response {
            Err(message) => result matches Err(err) && err@ == ApiErrorView::UnknownMessage(message@),
            Ok(body) => match system_export_status_get::spec_payload(body.data) {
                Some(payload) => if payload.succeeded {
                    result is Ok
                } else {
                    result matches Err(err) && err@ == spec_classify_response_status_error::<SystemError>(payload)
                },
                None => result matches Err(err) && err@ == spec_classify_response_error::<SystemError>(
                    body.errors,
                ),
            },
        },
{
    let body = match response {
        Ok(body) => body,
        Err(message) => {
            return Err(SystemError::UnknownErrorMessage { message });
        },
    };
    let Response { data, errors } = body;
    if let Some(data) = data {
        if let Some(system) = data.system {
            if let Some(export_status) = system.export_status {
                if export_status.succeeded {
                    return Ok(());
                } else {
                    return Err(classify_response_status_error(export_status));
                }
            }
        }
    }
    Err(classify_response_error(errors))
}

/// Reads the answer to the `SystemFlagsUpdate` mutation: success where the server reports it, or the error
/// that the answer or the transport reports.
pub fn system_flags_update(response: Result<Response<system_flags_update::ResponseData>, String>) -> (result: Result<(), SystemError>)
    requires
        response matches Ok(body) ==> (system_flags_update::spec_payload(body.data) is None ==> first_error_code_readable(
            body.errors,
        )),
    ensures
        match response {
            Err(message) => result matches Err(err) && err@ == ApiErrorView::UnknownMessage(message@),
            Ok(body) => match system_flags_update::spec_payload(body.data) {
                Some(payload) => if payload.succeeded {
                    result is Ok
                } else {
                    result matches Err(err) && err@ == spec_classify_response_status_error::<SystemError>(payload)
                },
                None => result matches Err(err) && err@ == spec_classify_response_error::<SystemError>(
                    body.errors,
                ),
            },
        },
{
    let body = match response {
        Ok(body) => body,
        Err(message) => {
            return Err(SystemError::UnknownErrorMessage { message });
        },
    };
    let Response { data, errors } = body;
    if let Some(data) = data {
        if let Some(system) = data.system {
            if let Some(update_flags) = system.update_flags {
                if let Some(response_result) = update_flags.response_result {
                    if response_result.succeeded {
                        return Ok(());
                    } else {
                        return Err(classify_response_status_error(response_result));
                    }
                }
            }
        }
    }
    Err(classify_response_error(errors))
}

/// Reads the answer to the `TelemetryClientIdReset` mutation: success where the server reports it, or the error
/// that the answer or the transport reports.
pub fn telemetry_client_id_reset(response: Result<Response<telemetry_client_id_reset::ResponseData>, String>) -> (result: Result<(), SystemError>)
    requires
        response matches Ok(body) ==> (telemetry_client_id_reset::spec_payload(body.data) is None ==> first_error_code_readable(
            body.errors,
        )),
    ensures
        match response {
            Err(message) => result matches Err(err) && err@ == ApiErrorView::UnknownMessage(message@),
            Ok(body) => match telemetry_client_id_reset::spec_payload(body.data) {
                Some(payload) => if payload.succeeded {
                    result is Ok
                } else {
                    result matches Err(err) && err@ == spec_classify_response_status_error::<SystemError>(payload)
                },
                None => result matches Err(err) && err@ == spec_classify_response_error::<SystemError>(
                    body.errors,
                ),
            },
        },
{
    let body = match response {
        Ok(body) => body,
        Err(message) => {
            return Err(SystemError::UnknownErrorMessage { message });
        },
    };
    let Response { data, errors } = body;
    if let Some(data) = data {
        if let Some(system) = data.system {
            if let Some(reset_telemetry_client_id) = system.reset_telemetry_client_id {
                if let Some(response_result) = reset_telemetry_client_id.response_result {
                    if response_result.succeeded {
                        return Ok(());
                    } else {
                        return Err(classify_response_status_error(response_result));
                    }
                }
            }
        }
    }
    Err(classify_response_error(errors))
}

/// Reads the answer to the `TelemetrySet` mutation: success where the server reports it, or the error
/// that the answer or the transport reports.
pub fn telemetry_set(response: Result<Response<telemetry_set::ResponseData>, String>) -> (result: Result<(), SystemError>)
    requires
        response matches Ok(body) ==> (telemetry_set::spec_payload(body.data) is None ==> first_error_code_readable(
            body.errors,
        )),
    ensures
        match response {
            Err(message) => result matches Err(err) && err@ == ApiErrorView::UnknownMessage(message@),
            Ok(body) => match telemetry_set::spec_payload(body.data) {
                Some(payload) => if payload.succeeded {
                    result is Ok
                } else {
                    result matches Err(err) && err@ == spec_classify_response_status_error::<SystemError>(payload)
                },
                None => result matches Err(err) && err@ == spec_classify_response_error::<SystemError>(
                    body.errors,
                ),
            },
        },
{
    let body = match response {
        Ok(body) => body,
        Err(message) => {
            return Err(SystemError::UnknownErrorMessage { message });
        },
    };
    let Response { data, errors } = body;
    if let Some(data) = data {
        if let Some(system) = data.system {
            if let Some(set_telemetry) = system.set_telemetry {
                if let Some(response_result) = set_telemetry.response_result {
                    if response_result.succeeded {
                        return Ok(());
                    } else {
                        return Err(classify_response_status_error(response_result));
                    }
                }
            }
        }
    }
    Err(classify_response_error(errors))
}

/// Reads the answer to the `SystemUpgradePerform` mutation: success where the server reports it, or the error
/// that the answer or the transport reports.
pub fn system_upgrade_perform(response: Result<Response<system_upgrade_perform::ResponseData>, String>) -> (result: Result<(), SystemError>)
    requires
        response matches Ok(body) ==> (system_upgrade_perform::spec_payload(body.data) is None ==> first_error_code_readable(
            body.errors,
        )),
    ensures
        match response {
            Err(message) => result matches Err(err) && err@ == ApiErrorView::UnknownMessage(message@),
            Ok(body) => match system_upgrade_perform::spec_payload(body.data) {
                Some(payload) => if payload.succeeded {
                    result is Ok
                } else {
                    result matches Err(err) && err@ == spec_classify_response_status_error::<SystemError>(payload)
                },
                None => result matches Err(err) && err@ == spec_classify_response_error::<SystemError>(
                    body.errors,
                ),
            },
        },
{
    let body = match response {
        Ok(body) => body,
        Err(message) => {
            return Err(SystemError::UnknownErrorMessage { message });
        },
    };
    let Response { data, errors } = body;
    if let Some(data) = data {
        if let Some(system) = data.system {
            if let Some(perform_upgrade) = system.perform_upgrade {
                if let Some(response_result) = perform_upgrade.response_result {
                    if response_result.succeeded {
                        return Ok(());
                    } else {
                        return Err(classify_response_status_error(response_result));
                    }
                }
            }
        }
    }
    Err(classify_response_error(errors))
}

/// Reads the answer to the `SystemUserImportFromV1` mutation: success where the server reports it, or the error
/// that the answer or the transport reports.
pub fn system_user_import_from_v1(response: Result<Response<system_user_import_from_v1::ResponseData>, String>) -> (result: Result<(), SystemError>)
    requires
        response matches Ok(body) ==> (system_user_import_from_v1::spec_payload(body.data) is None ==> first_error_code_readable(
            body.errors,
        )),
    ensures
        match response {
            Err(message) => result matches Err(err) && err@ == ApiErrorView::UnknownMessage(message@),
            Ok(body) => match system_user_import_from_v1::spec_payload(body.data) {
                Some(payload) => if payload.succeeded {
                    result is Ok
                } else {
                    result matches Err(err) && err@ == spec_classify_response_status_error::<SystemError>(payload)
                },
                None => result matches Err(err) && err@ == spec_classify_response_error::<SystemError>(
                    body.errors,
                ),
            },
        },
{
    let body = match response {
        Ok(body) => body,
        Err(message) => {
            return Err(SystemError::UnknownErrorMessage { message });
        },
    };
    let Response { data, errors } = body;
    if let Some(data) = data {
        if let Some(system) = data.system {
            if let Some(import_users_from_v1) = system.import_users_from_v1 {
                if let Some(response_result) = import_users_from_v1.response_result {
                    if response_result.succeeded {
                        return Ok(());
                    } else {
                        return Err(classify_response_status_error(response_result));
                    }
                }
            }
        }
    }
    Err(classify_response_error(errors))
}

/// Reads the answer to the `SystemHttpsRedirectionSet` mutation: success where the server reports it, or the error
/// that the answer or the transport reports.
pub fn https_redirection_set(response: Result<Response<system_https_redirection_set::ResponseData>, String>) -> (result: Result<(), SystemError>)
    requires
        response matches Ok(body) ==> (system_https_redirection_set::spec_payload(body.data) is None ==> first_error_code_readable(
            body.errors,
        )),
    ensures
        match response {
            Err(message) => result matches Err(err) && err@ == ApiErrorView::UnknownMessage(message@),
            Ok(body) => match system_https_redirection_set::spec_payload(body.data) {
                Some(payload) => if payload.succeeded {
                    result is Ok
                } else {
                    result matches Err(err) && err@ == spec_classify_response_status_error::<SystemError>(payload)
                },
                None => result matches Err(err) && err@ == spec_classify_response_error::<SystemError>(
                    body.errors,
                ),
            },
        },
{
    let body = match response {
        Ok(body) => body,
        Err(message) => {
            return Err(SystemError::UnknownErrorMessage { message });
        },
    };
    let Response { data, errors } = body;
    if let Some(data) = data {
        if let Some(system) = data.system {
            if let Some(set_https_redirection) = system.set_https_redirection {
                if let Some(response_result) = set_https_redirection.response_result {
                    if response_result.succeeded {
                        return Ok(());
                    } else {
                        return Err(classify_response_status_error(response_result));
                    }
                }
            }
        }
    }
    Err(classify_response_error(errors))
}

/// Reads the answer to the `SystemHttpsCertificateRenew` mutation: success where the server reports it, or the error
/// that the answer or the transport reports.
pub fn https_certificate_renew(response: Result<Response<system_https_certificate_renew::ResponseData>, String>) -> (result: Result<(), SystemError>)
    requires
        response matches Ok(body) ==> (system_https_certificate_renew::spec_payload(body.data) is None ==> first_error_code_readable(
            body.errors,
        )),
    ensures
        match response {
            Err(message) => result matches Err(err) && err@ == ApiErrorView::UnknownMessage(message@),
            Ok(body) => match system_https_certificate_renew::spec_payload(body.data) {
                Some(payload) => if payload.succeeded {
                    result is Ok
                } else {
                    result matches Err(err) && err@ == spec_classify_response_status_error::<SystemError>(payload)
                },
                None => result matches Err(err) && err@ == spec_classify_response_error::<SystemError>(
                    body.errors,
                ),
            },
        },
{
    let body = match response {
        Ok(body) => body,
        Err(message) => {
            return Err(SystemError::UnknownErrorMessage { message });
        },
    };
    let Response { data, errors } = body;
    if let Some(data) = data {
        if let Some(system) = data.system {
            if let Some(renew_https_certificate) = system.renew_https_certificate {
                if let Some(response_result) = renew_https_certificate.response_result {
                    if response_result.succeeded {
                        return Ok(());
                    } else {
                        return Err(classify_response_status_error(response_result));
                    }
                }
            }
        }
    }
    Err(classify_response_error(errors))
}

} // verus!
