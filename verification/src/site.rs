//! Site settings.

pub mod site_config_get;
pub mod site_config_update;

use vstd::prelude::*;

use crate::common::{ApiErrorView, Boolean, Int, KnownErrorCodes, Response, UnknownError, classify_response_error, classify_response_status_error, decimal, first_error_code_readable, int_to_string, spec_classify_response_error, spec_classify_response_status_error, spec_error_of_code, unknown_code_message};

verus! {

/// The errors of the endpoints of this module, named after the Wiki.js
/// error codes they stand for.
#[derive(Debug, PartialEq)]
pub enum SiteError {
    UnknownErrorCode { code: i64, message: String },
    UnknownErrorMessage { message: String },
    UnknownError,
}

impl View for SiteError {
    type V = ApiErrorView;

    open spec fn view(&self) -> ApiErrorView {
        match self {
            SiteError::UnknownErrorCode { code, message } => ApiErrorView::UnknownCode(*code, message@),
            SiteError::UnknownErrorMessage { message } => ApiErrorView::UnknownMessage(message@),
            SiteError::UnknownError => ApiErrorView::Unknown,
        }
    }
}

impl SiteError {
    /// The text that describes the error.
    pub open spec fn spec_to_string(&self) -> Seq<char> {
        match self {
            SiteError::UnknownErrorCode { code, message } => "Unknown response error code: "@ + decimal(*code as int) + ": "@ + message@,
            SiteError::UnknownErrorMessage { message } => "Unknown response error: "@ + message@,
            SiteError::UnknownError => "Unknown response error."@,
        }
    }

    /// The text that describes the error.
    pub fn to_string(&self) -> (text: String)
        ensures
            text@ == self.spec_to_string(),
    {
        match self {
            SiteError::UnknownErrorCode { code, message } => {
                let mut text = String::from_str("Unknown response error code: ");
                text.append(int_to_string(*code).as_str());
                text.append(": ");
                text.append(message.as_str());
                text
            },
            SiteError::UnknownErrorMessage { message } => {
                let mut text = String::from_str("Unknown response error: ");
                text.append(message.as_str());
                text
            },
            SiteError::UnknownError => String::from_str("Unknown response error."),
        }
    }
}

impl UnknownError for SiteError {
    open spec fn spec_is_named_code(code: i64) -> bool {
        false
    }

    fn unknown_error_code(code: i64, message: String) -> (err: Self) {
        SiteError::UnknownErrorCode { code, message }
    }

    fn unknown_error_message(message: String) -> (err: Self) {
        SiteError::UnknownErrorMessage { message }
    }

    fn unknown_error() -> (err: Self) {
        SiteError::UnknownError
    }

    fn from_error_code(code: i64) -> (err: Self) {
        let message = String::from_str("Unknown error");
        SiteError::UnknownErrorCode { code, message }
    }
}

impl From<i64> for SiteError {
    /// The error of a Wiki.js error code: its own variant where the type
    /// names the code, else an unknown-code error.
    fn from(code: i64) -> (err: Self)
        ensures
            err@ == spec_error_of_code::<SiteError>(code),
    {
        SiteError::from_error_code(code)
    }
}

/// `from` is specified by its own `ensures`, over the error's view: an
/// unknown-code error holds a `String`, which no spec function builds, so the
/// generic specification of `From` is not claimed.
impl vstd::std_specs::convert::FromSpecImpl<i64> for SiteError {
    open spec fn obeys_from_spec() -> bool {
        false
    }

    open spec fn from_spec(code: i64) -> Self {
        SiteError::UnknownError
    }
}

impl KnownErrorCodes for SiteError {
    open spec fn spec_known_error_codes() -> Seq<i64> {
        Seq::empty()
    }

    open spec fn spec_is_known_error_code(code: i64) -> bool {
        false
    }

    fn known_error_codes() -> (codes: Vec<i64>) {
        let codes: Vec<i64> = Vec::new();
        proof {
            assert(codes@ =~= Self::spec_known_error_codes());
        }
        codes
    }

    fn is_known_error_code(code: i64) -> (known: bool) {
        false
    }
}

/// The codes that `SiteError::known_error_codes` lists are exactly the codes that
/// `SiteError::is_known_error_code` accepts.
pub proof fn lemma_known_error_codes_listed(code: i64)
    ensures
        SiteError::spec_known_error_codes().contains(code) <==> SiteError::spec_is_known_error_code(code),
{
}

/// A code is known to `SiteError` exactly when the type has a variant of its own
/// for it: `SiteError::from` gives the known error for the known codes and an
/// unknown-code error for every other code.
pub proof fn lemma_known_error_codes_named(code: i64)
    ensures
        SiteError::spec_is_known_error_code(code) <==> SiteError::spec_is_named_code(code),
        spec_error_of_code::<SiteError>(code) == (if SiteError::spec_is_known_error_code(code) {
            ApiErrorView::Known(code)
        } else {
            ApiErrorView::UnknownCode(code, unknown_code_message())
        }),
{
}

#[derive(Debug)]
pub struct SiteConfig {
    pub host: Option<String>,
    pub title: Option<String>,
    pub description: Option<String>,
    pub robots: Option<Vec<Option<String>>>,
    pub analytics_service: Option<String>,
    pub analytics_id: Option<String>,
    pub company: Option<String>,
    pub content_license: Option<String>,
    pub footer_override: Option<String>,
    pub logo_url: Option<String>,
    pub page_extensions: Option<String>,
    pub auth_auto_login: Option<Boolean>,
    pub auth_enforce2_fa: Option<Boolean>,
    pub auth_hide_local: Option<Boolean>,
    pub auth_login_bg_url: Option<String>,
    pub auth_jwt_audience: Option<String>,
    pub auth_jwt_expiration: Option<String>,
    pub auth_jwt_renewable_period: Option<String>,
    pub edit_fab: Option<Boolean>,
    pub edit_menu_bar: Option<Boolean>,
    pub edit_menu_btn: Option<Boolean>,
    pub edit_menu_external_btn: Option<Boolean>,
    pub edit_menu_external_name: Option<String>,
    pub edit_menu_external_icon: Option<String>,
    pub edit_menu_external_url: Option<String>,
    pub feature_page_ratings: Option<Boolean>,
    pub feature_page_comments: Option<Boolean>,
    pub feature_personal_wikis: Option<Boolean>,
    pub security_open_redirect: Option<Boolean>,
    pub security_iframe: Option<Boolean>,
    pub security_referrer_policy: Option<Boolean>,
    pub security_trust_proxy: Option<Boolean>,
    pub security_sri: Option<Boolean>,
    pub security_hsts: Option<Boolean>,
    pub security_hsts_duration: Option<Int>,
    pub security_csp: Option<Boolean>,
    pub security_csp_directives: Option<String>,
    pub upload_max_file_size: Option<Int>,
    pub upload_max_files: Option<Int>,
    pub upload_scan_svg: Option<Boolean>,
    pub upload_force_download: Option<Boolean>,
}

/// Reads the answer to the `SiteConfigGet` query: what it asked for, or the error
/// that the answer or the transport reports.
pub fn site_config_get(response: Result<Response<site_config_get::ResponseData>, String>) -> (result: Result<SiteConfig, SiteError>)
    requires
        response matches Ok(body) ==> (site_config_get::spec_payload(body.data) is None ==> first_error_code_readable(
            body.errors,
        )),
    ensures
        match response {
            Err(message) => result matches Err(err) && err@ == ApiErrorView::UnknownMessage(message@),
            Ok(body) => match site_config_get::spec_payload(body.data) {
                Some(payload) => result matches Ok(value) && value == payload,
                None => result matches Err(err) && err@ == spec_classify_response_error::<SiteError>(
                    body.errors,
                ),
            },
        },
{
    let body = match response {
        Ok(body) => body,
        Err(message) => {
            return Err(SiteError::UnknownErrorMessage { message });
        },
    };
    let Response { data, errors } = body;
    if let Some(data) = data {
        if let Some(site) = data.site {
            if let Some(config) = site.config {
                return Ok(config);
            }
        }
    }
    Err(classify_response_error(errors))
}

/// Reads the answer to the `SiteConfigUpdate` mutation: success where the server reports it, or the error
/// that the answer or the transport reports.
pub fn site_config_update(response: Result<Response<site_config_update::ResponseData>, String>) -> (result: Result<(), SiteError>)
    requires
        response matches Ok(body) ==> (site_config_update::spec_payload(body.data) is None ==> first_error_code_readable(
            body.errors,
        )),
    ensures
        match response {
            Err(message) => result matches Err(err) && err@ == ApiErrorView::UnknownMessage(message@),
            Ok(body) => match site_config_update::spec_payload(body.data) {
                Some(payload) => if payload.succeeded {
                    result is Ok
                } else {
                    result matches Err(err) && err@ == spec_classify_response_status_error::<SiteError>(payload)
                },
                None => result matches Err(err) && err@ == spec_classify_response_error::<SiteError>(
                    body.errors,
                ),
            },
        },
{
    let body = match response {
        Ok(body) => body,
        Err(message) => {
            return Err(SiteError::UnknownErrorMessage { message });
        },
    };
    let Response { data, errors } = body;
    if let Some(data) = data {
        if let Some(site) = data.site {
            if let Some(update_config) = site.update_config {
                if let Some(response_result) = update_config.response_result {
                    if response_result.succeeded {
                        return Ok(());
                    } else {
                        return Err(classify_response_status_error(response_result));
                    }
                }
            }
        }
    }
    Err(classify_response_error(errors))
}

} // verus!
