//! User groups and their page rules.

pub mod group_create;
pub mod group_get;
pub mod group_list;
pub mod group_update;

use vstd::prelude::*;

use crate::common::{ApiErrorView, Boolean, Date, Int, KnownErrorCodes, Response, ResponseStatus, UnknownError, classify_response_error, classify_response_status_error, decimal, first_error_code_readable, flatten, flatten_seq, int_to_string, spec_classify_response_error, spec_classify_response_status_error, spec_error_of_code, unknown_code_message};
use crate::user::UserMinimal;

verus! {

/// The errors of the endpoints of this module, named after the Wiki.js
/// error codes they stand for.
#[derive(Debug, PartialEq)]
pub enum GroupError {
    UnknownErrorCode { code: i64, message: String },
    UnknownErrorMessage { message: String },
    UnknownError,
}

impl View for GroupError {
    type V = ApiErrorView;

    open spec fn view(&self) -> ApiErrorView {
        match self {
            GroupError::UnknownErrorCode { code, message } => ApiErrorView::UnknownCode(*code, message@),
            GroupError::UnknownErrorMessage { message } => ApiErrorView::UnknownMessage(message@),
            GroupError::UnknownError => ApiErrorView::Unknown,
        }
    }
}

impl GroupError {
    /// The text that describes the error.
    pub open spec fn spec_to_string(&self) -> Seq<char> {
        match self {
            GroupError::UnknownErrorCode { code, message } => "Unknown response error code: "@ + decimal(*code as int) + ": "@ + message@,
            GroupError::UnknownErrorMessage { message } => "Unknown response error: "@ + message@,
            GroupError::UnknownError => "Unknown response error."@,
        }
    }

    /// The text that describes the error.
    pub fn to_string(&self) -> (text: String)
        ensures
            text@ == self.spec_to_string(),
    {
        match self {
            GroupError::UnknownErrorCode { code, message } => {
                let mut text = String::from_str("Unknown response error code: ");
                text.append(int_to_string(*code).as_str());
                text.append(": ");
                text.append(message.as_str());
                text
            },
            GroupError::UnknownErrorMessage { message } => {
                let mut text = String::from_str("Unknown response error: ");
                text.append(message.as_str());
                text
            },
            GroupError::UnknownError => String::from_str("Unknown response error."),
        }
    }
}

impl UnknownError for GroupError {
    open spec fn spec_is_named_code(code: i64) -> bool {
        false
    }

    fn unknown_error_code(code: i64, message: String) -> (err: Self) {
        GroupError::UnknownErrorCode { code, message }
    }

    fn unknown_error_message(message: String) -> (err: Self) {
        GroupError::UnknownErrorMessage { message }
    }

    fn unknown_error() -> (err: Self) {
        GroupError::UnknownError
    }

    fn from_error_code(code: i64) -> (err: Self) {
        let message = String::from_str("Unknown error");
        GroupError::UnknownErrorCode { code, message }
    }
}

impl From<i64> for GroupError {
    /// The error of a Wiki.js error code: its own variant where the type
    /// names the code, else an unknown-code error.
    fn from(code: i64) -> (err: Self)
        ensures
            err@ == spec_error_of_code::<GroupError>(code),
    {
        GroupError::from_error_code(code)
    }
}

/// `from` is specified by its own `ensures`, over the error's view: an
/// unknown-code error holds a `String`, which no spec function builds, so the
/// generic specification of `From` is not claimed.
impl vstd::std_specs::convert::FromSpecImpl<i64> for GroupError {
    open spec fn obeys_from_spec() -> bool {
        false
    }

    open spec fn from_spec(code: i64) -> Self {
        GroupError::UnknownError
    }
}

impl KnownErrorCodes for GroupError {
    open spec fn spec_known_error_codes() -> Seq<i64> {
        Seq::empty()
    }

    open spec fn spec_is_known_error_code(code: i64) -> bool {
        false
    }

    fn known_error_codes() -> (codes: Vec<i64>) {
        let codes: Vec<i64> = Vec::new();
        proof {
            assert(codes@ =~= Self::spec_known_error_codes());
        }
        codes
    }

    fn is_known_error_code(code: i64) -> (known: bool) {
        false
    }
}

/// The codes that `GroupError::known_error_codes` lists are exactly the codes that
/// `GroupError::is_known_error_code` accepts.
pub proof fn lemma_known_error_codes_listed(code: i64)
    ensures
        GroupError::spec_known_error_codes().contains(code) <==> GroupError::spec_is_known_error_code(code),
{
}

/// A code is known to `GroupError` exactly when the type has a variant of its own
/// for it: `GroupError::from` gives the known error for the known codes and an
/// unknown-code error for every other code.
pub proof fn lemma_known_error_codes_named(code: i64)
    ensures
        GroupError::spec_is_known_error_code(code) <==> GroupError::spec_is_named_code(code),
        spec_error_of_code::<GroupError>(code) == (if GroupError::spec_is_known_error_code(code) {
            ApiErrorView::Known(code)
        } else {
            ApiErrorView::UnknownCode(code, unknown_code_message())
        }),
{
}

#[derive(Debug)]
pub struct GroupResponse {
    pub response_result: ResponseStatus,
    pub group: Option<Group>,
}

#[derive(Debug)]
pub struct GroupMinimal {
    pub id: Int,
    pub name: String,
    pub is_system: Boolean,
    pub user_count: Option<Int>,
    pub created_at: Date,
    pub updated_at: Date,
}

#[derive(Debug)]
pub struct Group {
    pub id: Int,
    pub name: String,
    pub is_system: Boolean,
    pub redirect_on_login: Option<String>,
    pub permissions: Vec<String>,
    pub page_rules: Option<Vec<Option<PageRule>>>,
    pub users: Option<Vec<UserMinimal>>,
    pub created_at: Date,
    pub updated_at: Date,
}

#[derive(Debug)]
pub struct PageRule {
    pub id: String,
    pub deny: Boolean,
    pub match_: PageRuleMatch,
    pub roles: Vec<String>,
    pub path: String,
    pub locales: Vec<String>,
}

#[derive(Debug)]
pub struct PageRuleInput {
    pub id: String,
    pub deny: Boolean,
    pub match_: PageRuleMatch,
    pub roles: Vec<String>,
    pub path: String,
    pub locales: Vec<String>,
}

#[allow(non_camel_case_types, clippy::upper_case_acronyms)]
#[derive(Debug, Clone, Copy, PartialEq, Eq)]
pub enum PageRuleMatch {
    START,
    EXACT,
    END,
    REGEX,
    TAG,
}

/// Reads the answer to the `GroupList` query: the listed items, without the absent ones, or the error
/// that the answer or the transport reports.
pub fn group_list(response: Result<Response<group_list::ResponseData>, String>) -> (result: Result<Vec<GroupMinimal>, GroupError>)
    requires
        response matches Ok(body) ==> (group_list::spec_payload(body.data) is None ==> first_error_code_readable(
            body.errors,
        )),
    ensures
        match response {
            Err(message) => result matches Err(err) && err@ == ApiErrorView::UnknownMessage(message@),
            Ok(body) => match group_list::spec_payload(body.data) {
                Some(payload) => result matches Ok(items) && items@ == flatten_seq(payload@),
                None => result matches Err(err) && err@ == spec_classify_response_error::<GroupError>(
                    body.errors,
                ),
            },
        },
{
    let body = match response {
        Ok(body) => body,
        Err(message) => {
            return Err(GroupError::UnknownErrorMessage { message });
        },
    };
    let Response { data, errors } = body;
    if let Some(data) = data {
        if let Some(groups) = data.groups {
            if let Some(list) = groups.list {
                return Ok(flatten(list));
            }
        }
    }
    Err(classify_response_error(errors))
}

/// Reads the answer to the `GroupGet` query: what it asked for, or the error
/// that the answer or the transport reports.
pub fn group_get(response: Result<Response<group_get::ResponseData>, String>) -> (result: Result<Group, GroupError>)
    requires
        response matches Ok(body) ==> (group_get::spec_payload(body.data) is None ==> first_error_code_readable(
            body.errors,
        )),
    ensures
        match response {
            Err(message) => result matches Err(err) && err@ == ApiErrorView::UnknownMessage(message@),
            Ok(body) => match group_get::spec_payload(body.data) {
                Some(payload) => result matches Ok(value) && value == payload,
                None => result matches Err(err) && err@ == spec_classify_response_error::<GroupError>(
                    body.errors,
                ),
            },
        },
{
    let body = match response {
        Ok(body) => body,
        Err(message) => {
            return Err(GroupError::UnknownErrorMessage { message });
        },
    };
    let Response { data, errors } = body;
    if let Some(data) = data {
        if let Some(groups) = data.groups {
            if let Some(single) = groups.single {
                return Ok(single);
            }
        }
    }
    Err(classify_response_error(errors))
}

/// Reads the answer to the `GroupCreate` mutation: success where the server reports it, or the error
/// that the answer or the transport reports.
pub fn group_create(response: Result<Response<group_create::ResponseData>, String>) -> (result: Result<(), GroupError>)
    requires
        response matches Ok(body) ==> (group_create::spec_payload(body.data) is None ==> first_error_code_readable(
            body.errors,
        )),
    ensures
        match response {
            Err(message) => result matches Err(err) && err@ == ApiErrorView::UnknownMessage(message@),
            Ok(body) => match group_create::spec_payload(body.data) {
                Some(payload) => if payload.succeeded {
                    result is Ok
                } else {
                    result matches Err(err) && err@ == ApiErrorView::UnknownCode(payload.error_code, match payload.message {
                        Some(message) => message@,
                        None => unknown_code_message(),
                    })
                },
                None => result matches Err(err) && err@ == spec_classify_response_error::<GroupError>(
                    body.errors,
                ),
            },
        },
{
    let body = match response {
        Ok(body) => body,
        Err(message) => {
            return Err(GroupError::UnknownErrorMessage { message });
        },
    };
    let Response { data, errors } = body;
    if let Some(data) = data {
        if let Some(groups) = data.groups {
            if let Some(create) = groups.create {
                if create.response_result.succeeded {
                    return Ok(());
                }
                let message = match create.response_result.message {
                    Some(message) => message,
                    None => String::from_str("Unknown error"),
                };
                return Err(GroupError::UnknownErrorCode { code: create.response_result.error_code, message });
            }
        }
    }
    Err(classify_response_error(errors))
}

/// Reads the answer to the `GroupUpdate` mutation: success where the server reports it, or the error
/// that the answer or the transport reports.
pub fn group_update(response: Result<Response<group_update::ResponseData>, String>) -> (result: Result<(), GroupError>)
    requires
        response matches Ok(body) ==> (group_update::spec_payload(body.data) is None ==> first_error_code_readable(
            body.errors,
        )),
    ensures
        match response {
            Err(message) => result matches Err(err) && err@ == ApiErrorView::UnknownMessage(message@),
            Ok(body) => match group_update::spec_payload(body.data) {
                Some(payload) => if payload.succeeded {
                    result is Ok
                } else {
                    result matches Err(err) && err@ == spec_classify_response_status_error::<GroupError>(payload)
                },
                None => result matches Err(err) && err@ == spec_classify_response_error::<GroupError>(
                    body.errors,
                ),
            },
        },
{
    let body = match response {
        Ok(body) => body,
        Err(message) => {
            return Err(GroupError::UnknownErrorMessage { message });
        },
    };
    let Response { data, errors } = body;
    if let Some(data) = data {
        if let Some(groups) = data.groups {
            if let Some(update) = groups.update {
                if let Some(response_result) = update.response_result {
                    if response_result.succeeded {
                        return Ok(());
                    } else {
                        return Err(classify_response_status_error(response_result));
                    }
                }
            }
        }
    }
    Err(classify_response_error(errors))
}

} // verus!
