//! Logins, API keys and authentication strategies.

pub mod api_key_list;
pub mod api_state_get;
pub mod authentication_strategy_list;
pub mod login_mod;

use vstd::prelude::*;

use crate::common::{ApiErrorView, Boolean, Date, Int, KeyValuePair, Response, ResponseStatus, classify_response_error, first_error_code_readable, flatten, flatten_seq, spec_classify_response_error};
use crate::user::UserError;

verus! {

#[derive(Debug)]
pub struct AuthenticationLoginResponse {
    pub response_result: Option<ResponseStatus>,
    pub jwt: Option<String>,
    pub must_change_pwd: Option<Boolean>,
    pub must_provide_tfa: Option<Boolean>,
    pub must_setup_tfa: Option<Boolean>,
    pub continuation_token: Option<String>,
    pub redirect: Option<String>,
    pub tfa_qr_image: Option<String>,
}

#[derive(Debug)]
pub struct ApiKey {
    pub id: Int,
    pub name: String,
    pub key_short: String,
    pub expiration: Date,
    pub created_at: Date,
    pub updated_at: Date,
    pub is_revoked: Boolean,
}

#[derive(Debug)]
pub struct AuthenticationStrategy {
    pub key: String,
    pub props: Option<Vec<Option<KeyValuePair>>>,
    pub title: String,
    pub description: Option<String>,
    pub is_available: Option<Boolean>,
    pub use_form: Boolean,
    pub username_type: Option<String>,
    pub logo: Option<String>,
    pub color: Option<String>,
    pub website: Option<String>,
    pub icon: Option<String>,
}

/// Reads the answer to the `Login` mutation: what it asked for, or the error
/// that the answer or the transport reports.
pub fn login(response: Result<Response<login_mod::ResponseData>, String>) -> (result: Result<AuthenticationLoginResponse, UserError>)
    requires
        response matches Ok(body) ==> (login_mod::spec_payload(body.data) is None ==> first_error_code_readable(
            body.errors,
        )),
    ensures
        match response {
            Err(message) => result matches Err(err) && err@ == ApiErrorView::UnknownMessage(message@),
            Ok(body) => match login_mod::spec_payload(body.data) {
                Some(payload) => result matches Ok(value) && value == payload,
                None => result matches Err(err) && err@ == spec_classify_response_error::<UserError>(
                    body.errors,
                ),
            },
        },
{
    let body = match response {
        Ok(body) => body,
        Err(message) => {
            return Err(UserError::UnknownErrorMessage { message });
        },
    };
    let Response { data, errors } = body;
    if let Some(data) = data {
        if let Some(authentication) = data.authentication {
            if let Some(login) = authentication.login {
                return Ok(login);
            }
        }
    }
    Err(classify_response_error(errors))
}

/// Reads the answer to the `ApiKeyList` query: the listed items, without the absent ones, or the error
/// that the answer or the transport reports.
pub fn api_key_list(response: Result<Response<api_key_list::ResponseData>, String>) -> (result: Result<Vec<ApiKey>, UserError>)
    requires
        response matches Ok(body) ==> (api_key_list::spec_payload(body.data) is None ==> first_error_code_readable(
            body.errors,
        )),
    ensures
        match response {
            Err(message) => result matches Err(err) && err@ == ApiErrorView::UnknownMessage(message@),
            Ok(body) => match api_key_list::spec_payload(body.data) {
                Some(payload) => result matches Ok(items) && items@ == flatten_seq(payload@),
                None => result matches Err(err) && err@ == spec_classify_response_error::<UserError>(
                    body.errors,
                ),
            },
        },
{
    let body = match response {
        Ok(body) => body,
        Err(message) => {
            return Err(UserError::UnknownErrorMessage { message });
        },
    };
    let Response { data, errors } = body;
    if let Some(data) = data {
        if let Some(authentication) = data.authentication {
            if let Some(api_keys) = authentication.api_keys {
                return Ok(flatten(api_keys));
            }
        }
    }
    Err(classify_response_error(errors))
}

/// Reads the answer to the `ApiStateGet` query: what it asked for, or the error
/// that the answer or the transport reports.
pub fn api_state_get(response: Result<Response<api_state_get::ResponseData>, String>) -> (result: Result<Boolean, UserError>)
    requires
        response matches Ok(body) ==> (api_state_get::spec_payload(body.data) is None ==> first_error_code_readable(
            body.errors,
        )),
    ensures
        match response {
            Err(message) => result matches Err(err) && err@ == ApiErrorView::UnknownMessage(message@),
            Ok(body) => match api_state_get::spec_payload(body.data) {
                Some(payload) => result matches Ok(value) && value == payload,
                None => result matches Err(err) && err@ == spec_classify_response_error::<UserError>(
                    body.errors,
                ),
            },
        },
{
    let body = match response {
        Ok(body) => body,
        Err(message) => {
            return Err(UserError::UnknownErrorMessage { message });
        },
    };
    let Response { data, errors } = body;
    if let Some(data) = data {
        if let Some(authentication) = data.authentication {
            return Ok(authentication.api_state);
        }
    }
    Err(classify_response_error(errors))
}

/// Reads the answer to the `AuthenticationStrategyList` query: the listed items, without the absent ones, or the error
/// that the answer or the transport reports.
pub fn authentication_strategy_list(response: Result<Response<authentication_strategy_list::ResponseData>, String>) -> (result: Result<Vec<AuthenticationStrategy>, UserError>)
    requires
        response matches Ok(body) ==> (authentication_strategy_list::spec_payload(body.data) is None ==> first_error_code_readable(
            body.errors,
        )),
    ensures
        match response {
            Err(message) => result matches Err(err) && err@ == ApiErrorView::UnknownMessage(message@),
            Ok(body) => match authentication_strategy_list::spec_payload(body.data) {
                Some(payload) => result matches Ok(items) && items@ == flatten_seq(payload@),
                None => result matches Err(err) && err@ == spec_classify_response_error::<UserError>(
                    body.errors,
                ),
            },
        },
{
    let body = match response {
        Ok(body) => body,
        Err(message) => {
            return Err(UserError::UnknownErrorMessage { message });
        },
    };
    let Response { data, errors } = body;
    if let Some(data) = data {
        if let Some(authentication) = data.authentication {
            if let Some(strategies) = authentication.strategies {
                return Ok(flatten(strategies));
            }
        }
    }
    Err(classify_response_error(errors))
}

} // verus!
