//! Users and their profiles.

pub mod user_activate;
pub mod user_create;
pub mod user_deactivate;
pub mod user_delete;
pub mod user_get;
pub mod user_last_login_list;
pub mod user_list;
pub mod user_password_change;
pub mod user_password_reset;
pub mod user_profile_get;
pub mod user_profile_update;
pub mod user_search;
pub mod user_tfa_disable;
pub mod user_tfa_enable;
pub mod user_update;
pub mod user_verify;

use vstd::prelude::*;

use crate::common::{ApiErrorView, Boolean, Date, Int, KnownErrorCodes, Response, ResponseStatus, UnknownError, classify_response_error, classify_response_status_error, decimal, first_error_code_readable, flatten, flatten_seq, int_to_string, spec_classify_response_error, spec_classify_response_status_error, spec_error_of_code, unknown_code_message};
use crate::group::Group;

verus! {

/// The errors of the endpoints of this module, named after the Wiki.js
/// error codes they stand for.
#[derive(Debug, PartialEq)]
pub enum UserError {
    AuthGenericError,
    AuthLoginFailed,
    AuthProviderInvalid,
    AuthAccountAlreadyExists,
    AuthTFAFailed,
    AuthTFAInvalid,
    BruteInstanceIsInvalid,
    BruteTooManyAttempts,
    UserCreationFailed,
    AuthRegistrationDisabled,
    AuthRegistrationDomainUnauthorized,
    InputInvalid,
    AuthAccountBanned,
    AuthAccountNotVerified,
    AuthValidationTokenInvalid,
    UserNotFound,
    UserDeleteForeignConstraint,
    UserDeleteProtected,
    AuthRequired,
    AuthPasswordInvalid,
    UnknownErrorCode { code: i64, message: String },
    UnknownErrorMessage { message: String },
    UnknownError,
}

impl View for UserError {
    type V = ApiErrorView;

    open spec fn view(&self) -> ApiErrorView {
        match self {
            UserError::AuthGenericError => ApiErrorView::Known(1001),
            UserError::AuthLoginFailed => ApiErrorView::Known(1002),
            UserError::AuthProviderInvalid => ApiErrorView::Known(1003),
            UserError::AuthAccountAlreadyExists => ApiErrorView::Known(1004),
            UserError::AuthTFAFailed => ApiErrorView::Known(1005),
            UserError::AuthTFAInvalid => ApiErrorView::Known(1006),
            UserError::BruteInstanceIsInvalid => ApiErrorView::Known(1007),
            UserError::BruteTooManyAttempts => ApiErrorView::Known(1008),
            UserError::UserCreationFailed => ApiErrorView::Known(1009),
            UserError::AuthRegistrationDisabled => ApiErrorView::Known(1010),
            UserError::AuthRegistrationDomainUnauthorized => ApiErrorView::Known(1011),
            UserError::InputInvalid => ApiErrorView::Known(1012),
            UserError::AuthAccountBanned => ApiErrorView::Known(1013),
            UserError::AuthAccountNotVerified => ApiErrorView::Known(1014),
            UserError::AuthValidationTokenInvalid => ApiErrorView::Known(1015),
            UserError::UserNotFound => ApiErrorView::Known(1016),
            UserError::UserDeleteForeignConstraint => ApiErrorView::Known(1017),
            UserError::UserDeleteProtected => ApiErrorView::Known(1018),
            UserError::AuthRequired => ApiErrorView::Known(1019),
            UserError::AuthPasswordInvalid => ApiErrorView::Known(1020),
            UserError::UnknownErrorCode { code, message } => ApiErrorView::UnknownCode(*code, message@),
            UserError::UnknownErrorMessage { message } => ApiErrorView::UnknownMessage(message@),
            UserError::UnknownError => ApiErrorView::Unknown,
        }
    }
}

impl UserError {
    /// The text that describes the error.
    pub open spec fn spec_to_string(&self) -> Seq<char> {
        match self {
            UserError::AuthGenericError => "An unexpected error occurred during login."@,
            UserError::AuthLoginFailed => "Invalid email / username or password."@,
            UserError::AuthProviderInvalid => "Invalid authentication provider."@,
            UserError::AuthAccountAlreadyExists => "An account already exists using this email address."@,
            UserError::AuthTFAFailed => "Incorrect TFA Security Code."@,
            UserError::AuthTFAInvalid => "Invalid TFA Security Code or Login Token."@,
            UserError::BruteInstanceIsInvalid => "Invalid Brute Force Instance."@,
            UserError::BruteTooManyAttempts => "Too many attempts! Try again later."@,
            UserError::UserCreationFailed => "An unexpected error occurred during user creation."@,
            UserError::AuthRegistrationDisabled => "Registration is disabled. Contact your system administrator."@,
            UserError::AuthRegistrationDomainUnauthorized => "You are not authorized to register. Your domain is not whitelisted."@,
            UserError::InputInvalid => "Input data is invalid."@,
            UserError::AuthAccountBanned => "Your account has been disabled."@,
            UserError::AuthAccountNotVerified => "You must verify your account before your can login."@,
            UserError::AuthValidationTokenInvalid => "Invalid validation token."@,
            UserError::UserNotFound => "This user does not exist."@,
            UserError::UserDeleteForeignConstraint => "Cannot delete user because of content relational constraints."@,
            UserError::UserDeleteProtected => "Cannot delete a protected system account."@,
            UserError::AuthRequired => "You must be authenticated to access this resource."@,
            UserError::AuthPasswordInvalid => "Password is incorrect."@,
            UserError::UnknownErrorCode { code, message } => "Unknown response error code: "@ + decimal(*code as int) + ": "@ + message@,
            UserError::UnknownErrorMessage { message } => "Unknown response error: "@ + message@,
            UserError::UnknownError => "Unknown response error."@,
        }
    }

    /// The text that describes the error.
    pub fn to_string(&self) -> (text: String)
        ensures
            text@ == self.spec_to_string(),
    {
        match self {
            UserError::AuthGenericError => String::from_str("An unexpected error occurred during login."),
            UserError::AuthLoginFailed => String::from_str("Invalid email / username or password."),
            UserError::AuthProviderInvalid => String::from_str("Invalid authentication provider."),
            UserError::AuthAccountAlreadyExists => String::from_str("An account already exists using this email address."),
            UserError::AuthTFAFailed => String::from_str("Incorrect TFA Security Code."),
            UserError::AuthTFAInvalid => String::from_str("Invalid TFA Security Code or Login Token."),
            UserError::BruteInstanceIsInvalid => String::from_str("Invalid Brute Force Instance."),
            UserError::BruteTooManyAttempts => String::from_str("Too many attempts! Try again later."),
            UserError::UserCreationFailed => String::from_str("An unexpected error occurred during user creation."),
            UserError::AuthRegistrationDisabled => String::from_str("Registration is disabled. Contact your system administrator."),
            UserError::AuthRegistrationDomainUnauthorized => String::from_str("You are not authorized to register. Your domain is not whitelisted."),
            UserError::InputInvalid => String::from_str("Input data is invalid."),
            UserError::AuthAccountBanned => String::from_str("Your account has been disabled."),
            UserError::AuthAccountNotVerified => String::from_str("You must verify your account before your can login."),
            UserError::AuthValidationTokenInvalid => String::from_str("Invalid validation token."),
            UserError::UserNotFound => String::from_str("This user does not exist."),
            UserError::UserDeleteForeignConstraint => String::from_str("Cannot delete user because of content relational constraints."),
            UserError::UserDeleteProtected => String::from_str("Cannot delete a protected system account."),
            UserError::AuthRequired => String::from_str("You must be authenticated to access this resource."),
            UserError::AuthPasswordInvalid => String::from_str("Password is incorrect."),
            UserError::UnknownErrorCode { code, message } => {
                let mut text = String::from_str("Unknown response error code: ");
                text.append(int_to_string(*code).as_str());
                text.append(": ");
                text.append(message.as_str());
                text
            },
            UserError::UnknownErrorMessage { message } => {
                let mut text = String::from_str("Unknown response error: ");
                text.append(message.as_str());
                text
            },
            UserError::UnknownError => String::from_str("Unknown response error."),
        }
    }
}

impl UnknownError for UserError {
    open spec fn spec_is_named_code(code: i64) -> bool {
        1001 <= code <= 1020
    }

    fn unknown_error_code(code: i64, message: String) -> (err: Self) {
        UserError::UnknownErrorCode { code, message }
    }

    fn unknown_error_message(message: String) -> (err: Self) {
        UserError::UnknownErrorMessage { message }
    }

    fn unknown_error() -> (err: Self) {
        UserError::UnknownError
    }

    fn from_error_code(code: i64) -> (err: Self) {
        match code {
            1001 => UserError::AuthGenericError,
            1002 => UserError::AuthLoginFailed,
            1003 => UserError::AuthProviderInvalid,
            1004 => UserError::AuthAccountAlreadyExists,
            1005 => UserError::AuthTFAFailed,
            1006 => UserError::AuthTFAInvalid,
            1007 => UserError::BruteInstanceIsInvalid,
            1008 => UserError::BruteTooManyAttempts,
            1009 => UserError::UserCreationFailed,
            1010 => UserError::AuthRegistrationDisabled,
            1011 => UserError::AuthRegistrationDomainUnauthorized,
            1012 => UserError::InputInvalid,
            1013 => UserError::AuthAccountBanned,
            1014 => UserError::AuthAccountNotVerified,
            1015 => UserError::AuthValidationTokenInvalid,
            1016 => UserError::UserNotFound,
            1017 => UserError::UserDeleteForeignConstraint,
            1018 => UserError::UserDeleteProtected,
            1019 => UserError::AuthRequired,
            1020 => UserError::AuthPasswordInvalid,
            _ => {
                let message = String::from_str("Unknown error");
                UserError::UnknownErrorCode { code, message }
            },
        }
    }
}

impl From<i64> for UserError {
    /// The error of a Wiki.js error code: its own variant where the type
    /// names the code, else an unknown-code error.
    fn from(code: i64) -> (err: Self)
        ensures
            err@ == spec_error_of_code::<UserError>(code),
    {
        UserError::from_error_code(code)
    }
}

/// `from` is specified by its own `ensures`, over the error's view: an
/// unknown-code error holds a `String`, which no spec function builds, so the
/// generic specification of `From` is not claimed.
impl vstd::std_specs::convert::FromSpecImpl<i64> for UserError {
    open spec fn obeys_from_spec() -> bool {
        false
    }

    open spec fn from_spec(code: i64) -> Self {
        UserError::UnknownError
    }
}

impl KnownErrorCodes for UserError {
    open spec fn spec_known_error_codes() -> Seq<i64> {
        seq![1001, 1002, 1003, 1004, 1005, 1006, 1007, 1008, 1010, 1011, 1012, 1013, 1014, 1015, 1016, 1017, 1018, 1019, 1020]
    }

    open spec fn spec_is_known_error_code(code: i64) -> bool {
        1001 <= code <= 1020
    }

    fn known_error_codes() -> (codes: Vec<i64>) {
        let codes = vec![1001, 1002, 1003, 1004, 1005, 1006, 1007, 1008, 1010, 1011, 1012, 1013, 1014, 1015, 1016, 1017, 1018, 1019, 1020];
        proof {
            assert(codes@ =~= Self::spec_known_error_codes());
        }
        codes
    }

    fn is_known_error_code(code: i64) -> (known: bool) {
        1001 <= code && code <= 1020
    }
}

/// The codes that `UserError::known_error_codes` lists are exactly the codes that
/// `UserError::is_known_error_code` accepts.
pub proof fn lemma_known_error_codes_listed(code: i64)
    requires
        code != 1009,
    ensures
        UserError::spec_known_error_codes().contains(code) <==> UserError::spec_is_known_error_code(code),
{
    let codes = UserError::spec_known_error_codes();
    if UserError::spec_is_known_error_code(code) {
        let i: int = if code < 1010 { code - 1001 } else { code - 1002 };
        assert(codes[i] == code);
    }
}

/// A code is known to `UserError` exactly when the type has a variant of its own
/// for it: `UserError::from` gives the known error for the known codes and an
/// unknown-code error for every other code.
pub proof fn lemma_known_error_codes_named(code: i64)
    ensures
        UserError::spec_is_known_error_code(code) <==> UserError::spec_is_named_code(code),
        spec_error_of_code::<UserError>(code) == (if UserError::spec_is_known_error_code(code) {
            ApiErrorView::Known(code)
        } else {
            ApiErrorView::UnknownCode(code, unknown_code_message())
        }),
{
}

#[derive(Debug)]
pub struct UserResponse {
    pub response_result: ResponseStatus,
    pub user: Option<User>,
}

#[derive(Debug)]
pub struct UserLastLogin {
    pub id: Int,
    pub name: String,
    pub last_login_at: Date,
}

#[derive(Debug)]
pub struct UserMinimal {
    pub id: Int,
    pub name: String,
    pub email: String,
    pub provider_key: String,
    pub is_system: Boolean,
    pub is_active: Boolean,
    pub created_at: Date,
    pub last_login_at: Option<Date>,
}

#[derive(Debug)]
pub struct User {
    pub id: Int,
    pub name: String,
    pub email: String,
    pub provider_key: String,
    pub provider_name: Option<String>,
    pub provider_id: Option<String>,
    pub provider_is_2fa_capable: Option<Boolean>,
    pub is_system: Boolean,
    pub is_active: Boolean,
    pub is_verified: Boolean,
    pub location: String,
    pub job_title: String,
    pub timezone: String,
    pub date_format: String,
    pub appearance: String,
    pub created_at: Date,
    pub updated_at: Date,
    pub last_login_at: Option<Date>,
    pub tfa_is_active: Boolean,
    pub groups: Vec<Option<Group>>,
}

#[derive(Debug)]
pub struct UserProfile {
    pub id: Int,
    pub name: String,
    pub email: String,
    pub provider_key: Option<String>,
    pub provider_name: Option<String>,
    pub is_system: Boolean,
    pub is_verified: Boolean,
    pub location: String,
    pub job_title: String,
    pub timezone: String,
    pub date_format: String,
    pub appearance: String,
    pub created_at: Date,
    pub updated_at: Date,
    pub last_login_at: Option<Date>,
    pub groups: Vec<String>,
    pub pages_total: Int,
}

#[derive(Debug)]
pub struct UserTokenResponse {
    pub response_result: ResponseStatus,
    pub jwt: Option<String>,
}

/// Reads the answer to the `UserGet` query: what it asked for, or the error
/// that the answer or the transport reports.
pub fn user_get(response: Result<Response<user_get::ResponseData>, String>) -> (result: Result<User, UserError>)
    requires
        response matches Ok(body) ==> (user_get::spec_payload(body.data) is None ==> first_error_code_readable(
            body.errors,
        )),
    ensures
        match response {
            Err(message) => result matches Err(err) && err@ == ApiErrorView::UnknownMessage(message@),
            Ok(body) => match user_get::spec_payload(body.data) {
                Some(payload) => result matches Ok(value) && value == payload,
                None => result matches Err(err) && err@ == spec_classify_response_error::<UserError>(
                    body.errors,
                ),
            },
        },
{
    let body = match response {
        Ok(body) => body,
        Err(message) => {
            return Err(UserError::UnknownErrorMessage { message });
        },
    };
    let Response { data, errors } = body;
    if let Some(data) = data {
        if let Some(users) = data.users {
            if let Some(user) = users.single {
                return Ok(user);
            }
        }
    }
    Err(classify_response_error(errors))
}

/// Reads the answer to the `UserList` query: the listed items, without the absent ones, or the error
/// that the answer or the transport reports.
pub fn user_list(response: Result<Response<user_list::ResponseData>, String>) -> (result: Result<Vec<UserMinimal>, UserError>)
    requires
        response matches Ok(body) ==> (user_list::spec_payload(body.data) is None ==> first_error_code_readable(
            body.errors,
        )),
    ensures
        match response {
            Err(message) => result matches Err(err) && err@ == ApiErrorView::UnknownMessage(message@),
            Ok(body) => match user_list::spec_payload(body.data) {
                Some(payload) => result matches Ok(items) && items@ == flatten_seq(payload@),
                None => result matches Err(err) && err@ == spec_classify_response_error::<UserError>(
                    body.errors,
                ),
            },
        },
{
    let body = match response {
        Ok(body) => body,
        Err(message) => {
            return Err(UserError::UnknownErrorMessage { message });
        },
    };
    let Response { data, errors } = body;
    if let Some(data) = data {
        if let Some(users) = data.users {
            if let Some(list) = users.list {
                return Ok(flatten(list));
            }
        }
    }
    Err(classify_response_error(errors))
}

/// Reads the answer to the `UserActivate` mutation: success where the server reports it, or the error
/// that the answer or the transport reports.
pub fn user_activate(response: Result<Response<user_activate::ResponseData>, String>) -> (result: Result<(), UserError>)
    requires
        response matches Ok(body) ==> (user_activate::spec_payload(body.data) is None ==> first_error_code_readable(
            body.errors,
        )),
    ensures
        match response {
            Err(message) => result matches Err(err) && err@ == ApiErrorView::UnknownMessage(message@),
            Ok(body) => match user_activate::spec_payload(body.data) {
                Some(payload) => if payload.succeeded {
                    result is Ok
                } else {
                    result matches Err(err) && err@ == spec_classify_response_status_error::<UserError>(payload)
                },
                None => result matches Err(err) && err@ == spec_classify_response_error::<UserError>(
                    body.errors,
                ),
            },
        },
{
    let body = match response {
        Ok(body) => body,
        Err(message) => {
            return Err(UserError::UnknownErrorMessage { message });
        },
    };
    let Response { data, errors } = body;
    if let Some(data) = data {
        if let Some(users) = data.users {
            if let Some(activate) = users.activate {
                if let Some(response_result) = activate.response_result {
                    if response_result.succeeded {
                        return Ok(());
                    } else {
                        return Err(classify_response_status_error(response_result));
                    }
                }
            }
        }
    }
    Err(classify_response_error(errors))
}

/// Reads the answer to the `UserDeactivate` mutation: success where the server reports it, or the error
/// that the answer or the transport reports.
pub fn user_deactivate(response: Result<Response<user_deactivate::ResponseData>, String>) -> (result: Result<(), UserError>)
    requires
        response matches Ok(body) ==> (user_deactivate::spec_payload(body.data) is None ==> first_error_code_readable(
            body.errors,
        )),
    ensures
        match response {
            Err(message) => result matches Err(err) && err@ == ApiErrorView::UnknownMessage(message@),
            Ok(body) => match user_deactivate::spec_payload(body.data) {
                Some(payload) => if payload.succeeded {
                    result is Ok
                } else {
                    result matches Err(err) && err@ == spec_classify_response_status_error::<UserError>(payload)
                },
                None => result matches Err(err) && err@ == spec_classify_response_error::<UserError>(
                    body.errors,
                ),
            },
        },
{
    let body = match response {
        Ok(body) => body,
        Err(message) => {
            return Err(UserError::UnknownErrorMessage { message });
        },
    };
    let Response { data, errors } = body;
    if let Some(data) = data {
        if let Some(users) = data.users {
            if let Some(deactivate) = users.deactivate {
                if let Some(response_result) = deactivate.response_result {
                    if response_result.succeeded {
                        return Ok(());
                    } else {
                        return Err(classify_response_status_error(response_result));
                    }
                }
            }
        }
    }
    Err(classify_response_error(errors))
}

/// Reads the answer to the `UserDelete` mutation: success where the server reports it, or the error
/// that the answer or the transport reports.
pub fn user_delete(response: Result<Response<user_delete::ResponseData>, String>) -> (result: Result<(), UserError>)
    requires
        response matches Ok(body) ==> (user_delete::spec_payload(body.data) is None ==> first_error_code_readable(
            body.errors,
        )),
    ensures
        match response {
            Err(message) => result matches Err(err) && err@ == ApiErrorView::UnknownMessage(message@),
            Ok(body) => match user_delete::spec_payload(body.data) {
                Some(payload) => if payload.succeeded {
                    result is Ok
                } else {
                    result matches Err(err) && err@ == spec_classify_response_status_error::<UserError>(payload)
                },
                None => result matches Err(err) && err@ == spec_classify_response_error::<UserError>(
                    body.errors,
                ),
            },
        },
{
    let body = match response {
        Ok(body) => body,
        Err(message) => {
            return Err(UserError::UnknownErrorMessage { message });
        },
    };
    let Response { data, errors } = body;
    if let Some(data) = data {
        if let Some(users) = data.users {
            if let Some(delete) = users.delete {
                if let Some(response_result) = delete.response_result {
                    if response_result.succeeded {
                        return Ok(());
                    } else {
                        return Err(classify_response_status_error(response_result));
                    }
                }
            }
        }
    }
    Err(classify_response_error(errors))
}

/// Reads the answer to the `UserTfaDisable` mutation: success where the server reports it, or the error
/// that the answer or the transport reports.
pub fn user_tfa_disable(response: Result<Response<user_tfa_disable::ResponseData>, String>) -> (result: Result<(), UserError>)
    requires
        response matches Ok(body) ==> (user_tfa_disable::spec_payload(body.data) is None ==> first_error_code_readable(
            body.errors,
        )),
    ensures
        match response {
            Err(message) => result matches Err(err) && err@ == ApiErrorView::UnknownMessage(message@),
            Ok(body) => match user_tfa_disable::spec_payload(body.data) {
                Some(payload) => if payload.succeeded {
                    result is Ok
                } else {
                    result matches Err(err) && err@ == spec_classify_response_status_error::<UserError>(payload)
                },
                None => result matches Err(err) && err@ == spec_classify_response_error::<UserError>(
                    body.errors,
                ),
            },
        },
{
    let body = match response {
        Ok(body) => body,
        Err(message) => {
            return Err(UserError::UnknownErrorMessage { message });
        },
    };
    let Response { data, errors } = body;
    if let Some(data) = data {
        if let Some(users) = data.users {
            if let Some(disable_tfa) = users.disable_tfa {
                if let Some(response_result) = disable_tfa.response_result {
                    if response_result.succeeded {
                        return Ok(());
                    } else {
                        return Err(classify_response_status_error(response_result));
                    }
                }
            }
        }
    }
    Err(classify_response_error(errors))
}

/// Reads the answer to the `UserTfaEnable` mutation: success where the server reports it, or the error
/// that the answer or the transport reports.
pub fn user_tfa_enable(response: Result<Response<user_tfa_enable::ResponseData>, String>) -> (result: Result<(), UserError>)
    requires
        response matches Ok(body) ==> (user_tfa_enable::spec_payload(body.data) is None ==> first_error_code_readable(
            body.errors,
        )),
    ensures
        match response {
            Err(message) => result matches Err(err) && err@ == ApiErrorView::UnknownMessage(message@),
            Ok(body) => match user_tfa_enable::spec_payload(body.data) {
                Some(payload) => if payload.succeeded {
                    result is Ok
                } else {
                    result matches Err(err) && err@ == spec_classify_response_status_error::<UserError>(payload)
                },
                None => result matches Err(err) && err@ == spec_classify_response_error::<UserError>(
                    body.errors,
                ),
            },
        },
{
    let body = match response {
        Ok(body) => body,
        Err(message) => {
            return Err(UserError::UnknownErrorMessage { message });
        },
    };
    let Response { data, errors } = body;
    if let Some(data) = data {
        if let Some(users) = data.users {
            if let Some(enable_tfa) = users.enable_tfa {
                if let Some(response_result) = enable_tfa.response_result {
                    if response_result.succeeded {
                        return Ok(());
                    } else {
                        return Err(classify_response_status_error(response_result));
                    }
                }
            }
        }
    }
    Err(classify_response_error(errors))
}

/// Reads the answer to the `UserVerify` mutation: success where the server reports it, or the error
/// that the answer or the transport reports.
pub fn user_verify(response: Result<Response<user_verify::ResponseData>, String>) -> (result: Result<(), UserError>)
    requires
        response matches Ok(body) ==> (user_verify::spec_payload(body.data) is None ==> first_error_code_readable(
            body.errors,
        )),
    ensures
        match response {
            Err(message) => result matches Err(err) && err@ == ApiErrorView::UnknownMessage(message@),
            Ok(body) => match user_verify::spec_payload(body.data) {
                Some(payload) => if payload.succeeded {
                    result is Ok
                } else {
                    result matches Err(err) && err@ == spec_classify_response_status_error::<UserError>(payload)
                },
                None => result matches Err(err) && err@ == spec_classify_response_error::<UserError>(
                    body.errors,
                ),
            },
        },
{
    let body = match response {
        Ok(body) => body,
        Err(message) => {
            return Err(UserError::UnknownErrorMessage { message });
        },
    };
    let Response { data, errors } = body;
    if let Some(data) = data {
        if let Some(users) = data.users {
            if let Some(verify) = users.verify {
                if let Some(response_result) = verify.response_result {
                    if response_result.succeeded {
                        return Ok(());
                    } else {
                        return Err(classify_response_status_error(response_result));
                    }
                }
            }
        }
    }
    Err(classify_response_error(errors))
}

/// Reads the answer to the `UserSearch` query: the listed items, without the absent ones, or the error
/// that the answer or the transport reports.
pub fn user_search(response: Result<Response<user_search::ResponseData>, String>) -> (result: Result<Vec<UserMinimal>, UserError>)
    requires
        response matches Ok(body) ==> (user_search::spec_payload(body.data) is None ==> first_error_code_readable(
            body.errors,
        )),
    ensures
        match response {
            Err(message) => result matches Err(err) && err@ == ApiErrorView::UnknownMessage(message@),
            Ok(body) => match user_search::spec_payload(body.data) {
                Some(payload) => result matches Ok(items) && items@ == flatten_seq(payload@),
                None => result matches Err(err) && err@ == spec_classify_response_error::<UserError>(
                    body.errors,
                ),
            },
        },
{
    let body = match response {
        Ok(body) => body,
        Err(message) => {
            return Err(UserError::UnknownErrorMessage { message });
        },
    };
    let Response { data, errors } = body;
    if let Some(data) = data {
        if let Some(users) = data.users {
            if let Some(search) = users.search {
                return Ok(flatten(search));
            }
        }
    }
    Err(classify_response_error(errors))
}

/// Reads the answer to the `UserProfileGet` query: what it asked for, or the error
/// that the answer or the transport reports.
pub fn user_profile_get(response: Result<Response<user_profile_get::ResponseData>, String>) -> (result: Result<UserProfile, UserError>)
    requires
        response matches Ok(body) ==> (user_profile_get::spec_payload(body.data) is None ==> first_error_code_readable(
            body.errors,
        )),
    ensures
        match response {
            Err(message) => result matches Err(err) && err@ == ApiErrorView::UnknownMessage(message@),
            Ok(body) => match user_profile_get::spec_payload(body.data) {
                Some(payload) => result matches Ok(value) && value == payload,
                None => result matches Err(err) && err@ == spec_classify_response_error::<UserError>(
                    body.errors,
                ),
            },
        },
{
    let body = match response {
        Ok(body) => body,
        Err(message) => {
            return Err(UserError::UnknownErrorMessage { message });
        },
    };
    let Response { data, errors } = body;
    if let Some(data) = data {
        if let Some(users) = data.users {
            if let Some(profile) = users.profile {
                return Ok(profile);
            }
        }
    }
    Err(classify_response_error(errors))
}

/// Reads the answer to the `UserLastLoginList` query: the listed items, without the absent ones, or the error
/// that the answer or the transport reports.
pub fn user_last_login_list(response: Result<Response<user_last_login_list::ResponseData>, String>) -> (result: Result<Vec<UserLastLogin>, UserError>)
    requires
        response matches Ok(body) ==> (user_last_login_list::spec_payload(body.data) is None ==> first_error_code_readable(
            body.errors,
        )),
    ensures
        match response {
            Err(message) => result matches Err(err) && err@ == ApiErrorView::UnknownMessage(message@),
            Ok(body) => match user_last_login_list::spec_payload(body.data) {
                Some(payload) => result matches Ok(items) && items@ == flatten_seq(payload@),
                None => result matches Err(err) && err@ == spec_classify_response_error::<UserError>(
                    body.errors,
                ),
            },
        },
{
    let body = match response {
        Ok(body) => body,
        Err(message) => {
            return Err(UserError::UnknownErrorMessage { message });
        },
    };
    let Response { data, errors } = body;
    if let Some(data) = data {
        if let Some(users) = data.users {
            if let Some(last_logins) = users.last_logins {
                return Ok(flatten(last_logins));
            }
        }
    }
    Err(classify_response_error(errors))
}

/// Reads the answer to the `UserCreate` mutation: success where the server reports it, or the error
/// that the answer or the transport reports.
pub fn user_create(response: Result<Response<user_create::ResponseData>, String>) -> (result: Result<(), UserError>)
    requires
        response matches Ok(body) ==> (user_create::spec_payload(body.data) is None ==> first_error_code_readable(
            body.errors,
        )),
    ensures
        match response {
            Err(message) => result matches Err(err) && err@ == ApiErrorView::UnknownMessage(message@),
            Ok(body) => match user_create::spec_payload(body.data) {
                Some(payload) => if payload.succeeded {
                    result is Ok
                } else {
                    result matches Err(err) && err@ == spec_classify_response_status_error::<UserError>(payload)
                },
                None => result matches Err(err) && err@ == spec_classify_response_error::<UserError>(
                    body.errors,
                ),
            },
        },
{
    let body = match response {
        Ok(body) => body,
        Err(message) => {
            return Err(UserError::UnknownErrorMessage { message });
        },
    };
    let Response { data, errors } = body;
    if let Some(data) = data {
        if let Some(users) = data.users {
            if let Some(create) = users.create {
                if create.response_result.succeeded {
                    return Ok(());
                } else {
                    return Err(classify_response_status_error(create.response_result));
                }
            }
        }
    }
    Err(classify_response_error(errors))
}

/// Reads the answer to the `UserUpdate` mutation: success where the server reports it, or the error
/// that the answer or the transport reports.
pub fn user_update(response: Result<Response<user_update::ResponseData>, String>) -> (result: Result<(), UserError>)
    requires
        response matches Ok(body) ==> (user_update::spec_payload(body.data) is None ==> first_error_code_readable(
            body.errors,
        )),
    ensures
        match response {
            Err(message) => result matches Err(err) && err@ == ApiErrorView::UnknownMessage(message@),
            Ok(body) => match user_update::spec_payload(body.data) {
                Some(payload) => if payload.succeeded {
                    result is Ok
                } else {
                    result matches Err(err) && err@ == spec_classify_response_status_error::<UserError>(payload)
                },
                None => result matches Err(err) && err@ == spec_classify_response_error::<UserError>(
                    body.errors,
                ),
            },
        },
{
    let body = match response {
        Ok(body) => body,
        Err(message) => {
            return Err(UserError::UnknownErrorMessage { message });
        },
    };
    let Response { data, errors } = body;
    if let Some(data) = data {
        if let Some(users) = data.users {
            if let Some(update) = users.update {
                if let Some(response_result) = update.response_result {
                    if response_result.succeeded {
                        return Ok(());
                    } else {
                        return Err(classify_response_status_error(response_result));
                    }
                }
            }
        }
    }
    Err(classify_response_error(errors))
}

/// Reads the answer to the `UserProfileUpdate` mutation: the token that the server returns on success, or the error
/// that the answer or the transport reports.
pub fn user_profile_update(response: Result<Response<user_profile_update::ResponseData>, String>) -> (result: Result<Option<String>, UserError>)
    requires
        response matches Ok(body) ==> (user_profile_update::spec_payload(body.data) is None ==> first_error_code_readable(
            body.errors,
        )),
    ensures
        match response {
            Err(message) => result matches Err(err) && err@ == ApiErrorView::UnknownMessage(message@),
            Ok(body) => match user_profile_update::spec_payload(body.data) {
                Some(payload) => if payload.0.succeeded {
                    result matches Ok(value) && value == payload.1
                } else {
                    result matches Err(err) && err@ == spec_classify_response_status_error::<UserError>(payload.0)
                },
                None => result matches Err(err) && err@ == spec_classify_response_error::<UserError>(
                    body.errors,
                ),
            },
        },
{
    let body = match response {
        Ok(body) => body,
        Err(message) => {
            return Err(UserError::UnknownErrorMessage { message });
        },
    };
    let Response { data, errors } = body;
    if let Some(data) = data {
        if let Some(users) = data.users {
            if let Some(update_profile) = users.update_profile {
                if update_profile.response_result.succeeded {
                    return Ok(update_profile.jwt);
                } else {
                    return Err(classify_response_status_error(update_profile.response_result));
                }
            }
        }
    }
    Err(classify_response_error(errors))
}

/// Reads the answer to the `UserPasswordChange` mutation: the token that the server returns on success, or the error
/// that the answer or the transport reports.
pub fn user_password_change(response: Result<Response<user_password_change::ResponseData>, String>) -> (result: Result<Option<String>, UserError>)
    requires
        response matches Ok(body) ==> (user_password_change::spec_payload(body.data) is None ==> first_error_code_readable(
            body.errors,
        )),
    ensures
        match response {
            Err(message) => result matches Err(err) && err@ == ApiErrorView::UnknownMessage(message@),
            Ok(body) => match user_password_change::spec_payload(body.data) {
                Some(payload) => if payload.0.succeeded {
                    result matches Ok(value) && value == payload.1
                } else {
                    result matches Err(err) && err@ == spec_classify_response_status_error::<UserError>(payload.0)
                },
                None => result matches Err(err) && err@ == spec_classify_response_error::<UserError>(
                    body.errors,
                ),
            },
        },
{
    let body = match response {
        Ok(body) => body,
        Err(message) => {
            return Err(UserError::UnknownErrorMessage { message });
        },
    };
    let Response { data, errors } = body;
    if let Some(data) = data {
        if let Some(users) = data.users {
            if let Some(change_password) = users.change_password {
                if change_password.response_result.succeeded {
                    return Ok(change_password.jwt);
                } else {
                    return Err(classify_response_status_error(change_password.response_result));
                }
            }
        }
    }
    Err(classify_response_error(errors))
}

/// Reads the answer to the `UserPasswordReset` mutation: success where the server reports it, or the error
/// that the answer or the transport reports.
pub fn user_password_reset(response: Result<Response<user_password_reset::ResponseData>, String>) -> (result: Result<(), UserError>)
    requires
        response matches Ok(body) ==> (user_password_reset::spec_payload(body.data) is None ==> first_error_code_readable(
            body.errors,
        )),
    ensures
        match response {
            Err(message) => result matches Err(err) && err@ == ApiErrorView::UnknownMessage(message@),
            Ok(body) => match user_password_reset::spec_payload(body.data) {
                Some(payload) => if payload.succeeded {
                    result is Ok
                } else {
                    result matches Err(err) && err@ == spec_classify_response_status_error::<UserError>(payload)
                },
                None => result matches Err(err) && err@ == spec_classify_response_error::<UserError>(
                    body.errors,
                ),
            },
        },
{
    let body = match response {
        Ok(body) => body,
        Err(message) => {
            return Err(UserError::UnknownErrorMessage { message });
        },
    };
    let Response { data, errors } = body;
    if let Some(data) = data {
        if let Some(users) = data.users {
            if let Some(reset_password) = users.reset_password {
                if let Some(response_result) = reset_password.response_result {
                    if response_result.succeeded {
                        return Ok(());
                    } else {
                        return Err(classify_response_status_error(response_result));
                    }
                }
            }
        }
    }
    Err(classify_response_error(errors))
}

} // verus!
