//! Navigation settings and the navigation tree.

pub mod navigation_config_get;
pub mod navigation_config_update;
pub mod navigation_tree_get;
pub mod navigation_tree_update;

use vstd::prelude::*;

use crate::common::{ApiErrorView, Int, KnownErrorCodes, Response, UnknownError, classify_response_error, classify_response_status_error, decimal, first_error_code_readable, flatten, flatten_seq, int_to_string, spec_classify_response_error, spec_classify_response_status_error, spec_error_of_code, unknown_code_message};

verus! {

/// The errors of the endpoints of this module, named after the Wiki.js
/// error codes they stand for.
#[derive(Debug, PartialEq)]
pub enum NavigationError {
    UnknownErrorCode { code: i64, message: String },
    UnknownErrorMessage { message: String },
    UnknownError,
}

impl View for NavigationError {
    type V = ApiErrorView;

    open spec fn view(&self) -> ApiErrorView {
        match self {
            NavigationError::UnknownErrorCode { code, message } => ApiErrorView::UnknownCode(*code, message@),
            NavigationError::UnknownErrorMessage { message } => ApiErrorView::UnknownMessage(message@),
            NavigationError::UnknownError => ApiErrorView::Unknown,
        }
    }
}

impl NavigationError {
    /// The text that describes the error.
    pub open spec fn spec_to_string(&self) -> Seq<char> {
        match self {
            NavigationError::UnknownErrorCode { code, message } => "Unknown response error code: "@ + decimal(*code as int) + ": "@ + message@,
            NavigationError::UnknownErrorMessage { message } => "Unknown response error: "@ + message@,
            NavigationError::UnknownError => "Unknown response error."@,
        }
    }

    /// The text that describes the error.
    pub fn to_string(&self) -> (text: String)
        ensures
            text@ == self.spec_to_string(),
    {
        match self {
            NavigationError::UnknownErrorCode { code, message } => {
                let mut text = String::from_str("Unknown response error code: ");
                text.append(int_to_string(*code).as_str());
                text.append(": ");
                text.append(message.as_str());
                text
            },
            NavigationError::UnknownErrorMessage { message } => {
                let mut text = String::from_str("Unknown response error: ");
                text.append(message.as_str());
                text
            },
            NavigationError::UnknownError => String::from_str("Unknown response error."),
        }
    }
}

impl UnknownError for NavigationError {
    open spec fn spec_is_named_code(code: i64) -> bool {
        false
    }

    fn unknown_error_code(code: i64, message: String) -> (err: Self) {
        NavigationError::UnknownErrorCode { code, message }
    }

    fn unknown_error_message(message: String) -> (err: Self) {
        NavigationError::UnknownErrorMessage { message }
    }

    fn unknown_error() -> (err: Self) {
        NavigationError::UnknownError
    }

    fn from_error_code(code: i64) -> (err: Self) {
        let message = String::from_str("Unknown error");
        NavigationError::UnknownErrorCode { code, message }
    }
}

impl From<i64> for NavigationError {
    /// The error of a Wiki.js error code: its own variant where the type
    /// names the code, else an unknown-code error.
    fn from(code: i64) -> (err: Self)
        ensures
            err@ == spec_error_of_code::<NavigationError>(code),
    {
        NavigationError::from_error_code(code)
    }
}

/// `from` is specified by its own `ensures`, over the error's view: an
/// unknown-code error holds a `String`, which no spec function builds, so the
/// generic specification of `From` is not claimed.
impl vstd::std_specs::convert::FromSpecImpl<i64> for NavigationError {
    open spec fn obeys_from_spec() -> bool {
        false
    }

    open spec fn from_spec(code: i64) -> Self {
        NavigationError::UnknownError
    }
}

impl KnownErrorCodes for NavigationError {
    open spec fn spec_known_error_codes() -> Seq<i64> {
        Seq::empty()
    }

    open spec fn spec_is_known_error_code(code: i64) -> bool {
        false
    }

    fn known_error_codes() -> (codes: Vec<i64>) {
        let codes: Vec<i64> = Vec::new();
        proof {
            assert(codes@ =~= Self::spec_known_error_codes());
        }
        codes
    }

    fn is_known_error_code(code: i64) -> (known: bool) {
        false
    }
}

/// The codes that `NavigationError::known_error_codes` lists are exactly the codes that
/// `NavigationError::is_known_error_code` accepts.
pub proof fn lemma_known_error_codes_listed(code: i64)
    ensures
        NavigationError::spec_known_error_codes().contains(code) <==> NavigationError::spec_is_known_error_code(code),
{
}

/// A code is known to `NavigationError` exactly when the type has a variant of its own
/// for it: `NavigationError::from` gives the known error for the known codes and an
/// unknown-code error for every other code.
pub proof fn lemma_known_error_codes_named(code: i64)
    ensures
        NavigationError::spec_is_known_error_code(code) <==> NavigationError::spec_is_named_code(code),
        spec_error_of_code::<NavigationError>(code) == (if NavigationError::spec_is_known_error_code(code) {
            ApiErrorView::Known(code)
        } else {
            ApiErrorView::UnknownCode(code, unknown_code_message())
        }),
{
}

#[allow(non_camel_case_types, clippy::upper_case_acronyms)]
#[derive(Debug, Clone, Copy, PartialEq, Eq)]
pub enum NavigationMode {
    NONE,
    TREE,
    MIXED,
    STATIC,
}

#[derive(Debug)]
pub struct NavigationConfig {
    pub mode: NavigationMode,
}

#[derive(Debug)]
pub struct NavigationTree {
    pub locale: String,
    pub items: Vec<Option<NavigationTreeItem>>,
}

#[derive(Debug)]
pub struct NavigationTreeItem {
    pub id: String,
    pub kind: String,
    pub label: Option<String>,
    pub icon: Option<String>,
    pub target_type: Option<String>,
    pub target: Option<String>,
    pub visibility_mode: Option<String>,
    pub visibility_groups: Option<Vec<Option<Int>>>,
}

#[derive(Debug)]
pub struct NavigationTreeInput {
    pub locale: String,
    pub items: Vec<Option<NavigationItemInput>>,
}

#[derive(Debug)]
pub struct NavigationItemInput {
    pub id: String,
    pub kind: String,
    pub label: Option<String>,
    pub icon: Option<String>,
    pub target_type: Option<String>,
    pub target: Option<String>,
    pub visibility_mode: Option<String>,
    pub visibility_groups: Option<Vec<Option<Int>>>,
}

/// Reads the answer to the `NavigationConfigGet` query: what it asked for, or the error
/// that the answer or the transport reports.
pub fn navigation_config_get(response: Result<Response<navigation_config_get::ResponseData>, String>) -> (result: Result<NavigationConfig, NavigationError>)
    requires
        response matches Ok(body) ==> (navigation_config_get::spec_payload(body.data) is None ==> first_error_code_readable(
            body.errors,
        )),
    ensures
        match response {
            Err(message) => result matches Err(err) && err@ == ApiErrorView::UnknownMessage(message@),
            Ok(body) => match navigation_config_get::spec_payload(body.data) {
                Some(payload) => result matches Ok(value) && value == payload,
                None => result matches Err(err) && err@ == spec_classify_response_error::<NavigationError>(
                    body.errors,
                ),
            },
        },
{
    let body = match response {
        Ok(body) => body,
        Err(message) => {
            return Err(NavigationError::UnknownErrorMessage { message });
        },
    };
    let Response { data, errors } = body;
    if let Some(data) = data {
        if let Some(navigation) = data.navigation {
            return Ok(navigation.config);
        }
    }
    Err(classify_response_error(errors))
}

/// Reads the answer to the `NavigationTreeGet` query: the listed items, without the absent ones, or the error
/// that the answer or the transport reports.
pub fn navigation_tree_get(response: Result<Response<navigation_tree_get::ResponseData>, String>) -> (result: Result<Vec<NavigationTree>, NavigationError>)
    requires
        response matches Ok(body) ==> (navigation_tree_get::spec_payload(body.data) is None ==> first_error_code_readable(
            body.errors,
        )),
    ensures
        match response {
            Err(message) => result matches Err(err) && err@ == ApiErrorView::UnknownMessage(message@),
            Ok(body) => match navigation_tree_get::spec_payload(body.data) {
                Some(payload) => result matches Ok(items) && items@ == flatten_seq(payload@),
                None => result matches Err(err) && err@ == spec_classify_response_error::<NavigationError>(
                    body.errors,
                ),
            },
        },
{
    let body = match response {
        Ok(body) => body,
        Err(message) => {
            return Err(NavigationError::UnknownErrorMessage { message });
        },
    };
    let Response { data, errors } = body;
    if let Some(data) = data {
        if let Some(navigation) = data.navigation {
            return Ok(flatten(navigation.tree));
        }
    }
    Err(classify_response_error(errors))
}

/// Reads the answer to the `NavigationConfigUpdate` mutation: success where the server reports it, or the error
/// that the answer or the transport reports.
pub fn navigation_config_update(response: Result<Response<navigation_config_update::ResponseData>, String>) -> (result: Result<(), NavigationError>)
    requires
        response matches Ok(body) ==> (navigation_config_update::spec_payload(body.data) is None ==> first_error_code_readable(
            body.errors,
        )),
    ensures
        match response {
            Err(message) => result matches Err(err) && err@ == ApiErrorView::UnknownMessage(message@),
            Ok(body) => match navigation_config_update::spec_payload(body.data) {
                Some(payload) => if payload.succeeded {
                    result is Ok
                } else {
                    result matches Err(err) && err@ == spec_classify_response_status_error::<NavigationError>(payload)
                },
                None => result matches Err(err) && err@ == spec_classify_response_error::<NavigationError>(
                    body.errors,
                ),
            },
        },
{
    let body = match response {
        Ok(body) => body,
        Err(message) => {
            return Err(NavigationError::UnknownErrorMessage { message });
        },
    };
    let Response { data, errors } = body;
    if let Some(data) = data {
        if let Some(navigation) = data.navigation {
            if let Some(update_config) = navigation.update_config {
                if let Some(response_result) = update_config.response_result {
                    if response_result.succeeded {
                        return Ok(());
                    } else {
                        return Err(classify_response_status_error(response_result));
                    }
                }
            }
        }
    }
    Err(classify_response_error(errors))
}

/// Reads the answer to the `NavigationTreeUpdate` mutation: success where the server reports it, or the error
/// that the answer or the transport reports.
pub fn navigation_tree_update(response: Result<Response<navigation_tree_update::ResponseData>, String>) -> (result: Result<(), NavigationError>)
    requires
        response matches Ok(body) ==> (navigation_tree_update::spec_payload(body.data) is None ==> first_error_code_readable(
            body.errors,
        )),
    ensures
        match response {
            Err(message) => result matches Err(err) && err@ == ApiErrorView::UnknownMessage(message@),
            Ok(body) => match navigation_tree_update::spec_payload(body.data) {
                Some(payload) => if payload.succeeded {
                    result is Ok
                } else {
                    result matches Err(err) && err@ == spec_classify_response_status_error::<NavigationError>(payload)
                },
                None => result matches Err(err) && err@ == spec_classify_response_error::<NavigationError>(
                    body.errors,
                ),
            },
        },
{
    let body = match response {
        Ok(body) => body,
        Err(message) => {
            return Err(NavigationError::UnknownErrorMessage { message });
        },
    };
    let Response { data, errors } = body;
    if let Some(data) = data {
        if let Some(navigation) = data.navigation {
            if let Some(update_tree) = navigation.update_tree {
                if let Some(response_result) = update_tree.response_result {
                    if response_result.succeeded {
                        return Ok(());
                    } else {
                        return Err(classify_response_status_error(response_result));
                    }
                }
            }
        }
    }
    Err(classify_response_error(errors))
}

} // verus!
