//! Search engines.

pub mod search_engine_index_rebuild;
pub mod search_engine_list;
pub mod search_engine_update;

use vstd::prelude::*;

use crate::common::{ApiErrorView, Boolean, KeyValuePair, KeyValuePairInput, KnownErrorCodes, Response, UnknownError, classify_response_error, classify_response_status_error, decimal, first_error_code_readable, flatten, flatten_seq, int_to_string, spec_classify_response_error, spec_classify_response_status_error, spec_error_of_code, unknown_code_message};

verus! {

/// The errors of the endpoints of this module, named after the Wiki.js
/// error codes they stand for.
#[derive(Debug, PartialEq)]
pub enum SearchError {
    SearchGenericError,
    SearchActivationFailed,
    UnknownErrorCode { code: i64, message: String },
    UnknownErrorMessage { message: String },
    UnknownError,
}

impl View for SearchError {
    type V = ApiErrorView;

    open spec fn view(&self) -> ApiErrorView {
        match self {
            SearchError::SearchGenericError => ApiErrorView::Known(4001),
            SearchError::SearchActivationFailed => ApiErrorView::Known(4002),
            SearchError::UnknownErrorCode { code, message } => ApiErrorView::UnknownCode(*code, message@),
            SearchError::UnknownErrorMessage { message } => ApiErrorView::UnknownMessage(message@),
            SearchError::UnknownError => ApiErrorView::Unknown,
        }
    }
}

impl SearchError {
    /// The text that describes the error.
    pub open spec fn spec_to_string(&self) -> Seq<char> {
        match self {
            SearchError::SearchGenericError => "An unexpected error occurred during search operation."@,
            SearchError::SearchActivationFailed => "Search Engine activation failed."@,
            SearchError::UnknownErrorCode { code, message } => "Unknown response error code: "@ + decimal(*code as int) + ": "@ + message@,
            SearchError::UnknownErrorMessage { message } => "Unknown response error: "@ + message@,
            SearchError::UnknownError => "Unknown response error."@,
        }
    }

    /// The text that describes the error.
    pub fn to_string(&self) -> (text: String)
        ensures
            text@ == self.spec_to_string(),
    {
        match self {
            SearchError::SearchGenericError => String::from_str("An unexpected error occurred during search operation."),
            SearchError::SearchActivationFailed => String::from_str("Search Engine activation failed."),
            SearchError::UnknownErrorCode { code, message } => {
                let mut text = String::from_str("Unknown response error code: ");
                text.append(int_to_string(*code).as_str());
                text.append(": ");
                text.append(message.as_str());
                text
            },
            SearchError::UnknownErrorMessage { message } => {
                let mut text = String::from_str("Unknown response error: ");
                text.append(message.as_str());
                text
            },
            SearchError::UnknownError => String::from_str("Unknown response error."),
        }
    }
}

impl UnknownError for SearchError {
    open spec fn spec_is_named_code(code: i64) -> bool {
        4001 <= code <= 4002
    }

    fn unknown_error_code(code: i64, message: String) -> (err: Self) {
        SearchError::UnknownErrorCode { code, message }
    }

    fn unknown_error_message(message: String) -> (err: Self) {
        SearchError::UnknownErrorMessage { message }
    }

    fn unknown_error() -> (err: Self) {
        SearchError::UnknownError
    }

    fn from_error_code(code: i64) -> (err: Self) {
        match code {
            4001 => SearchError::SearchGenericError,
            4002 => SearchError::SearchActivationFailed,
            _ => {
                let message = String::from_str("Unknown error");
                SearchError::UnknownErrorCode { code, message }
            },
        }
    }
}

impl From<i64> for SearchError {
    /// The error of a Wiki.js error code: its own variant where the type
    /// names the code, else an unknown-code error.
    fn from(code: i64) -> (err: Self)
        ensures
            err@ == spec_error_of_code::<SearchError>(code),
    {
        SearchError::from_error_code(code)
    }
}

/// `from` is specified by its own `ensures`, over the error's view: an
/// unknown-code error holds a `String`, which no spec function builds, so the
/// generic specification of `From` is not claimed.
impl vstd::std_specs::convert::FromSpecImpl<i64> for SearchError {
    open spec fn obeys_from_spec() -> bool {
        false
    }

    open spec fn from_spec(code: i64) -> Self {
        SearchError::UnknownError
    }
}

impl KnownErrorCodes for SearchError {
    open spec fn spec_known_error_codes() -> Seq<i64> {
        seq![4001, 4002]
    }

    open spec fn spec_is_known_error_code(code: i64) -> bool {
        4001 <= code <= 4002
    }

    fn known_error_codes() -> (codes: Vec<i64>) {
        let codes = vec![4001, 4002];
        proof {
            assert(codes@ =~= Self::spec_known_error_codes());
        }
        codes
    }

    fn is_known_error_code(code: i64) -> (known: bool) {
        4001 <= code && code <= 4002
    }
}

/// The codes that `SearchError::known_error_codes` lists are exactly the codes that
/// `SearchError::is_known_error_code` accepts.
pub proof fn lemma_known_error_codes_listed(code: i64)
    ensures
        SearchError::spec_known_error_codes().contains(code) <==> SearchError::spec_is_known_error_code(code),
{
    let codes = SearchError::spec_known_error_codes();
    if SearchError::spec_is_known_error_code(code) {
        let i: int = code - 4001;
        assert(codes[i] == code);
    }
}

/// A code is known to `SearchError` exactly when the type has a variant of its own
/// for it: `SearchError::from` gives the known error for the known codes and an
/// unknown-code error for every other code.
pub proof fn lemma_known_error_codes_named(code: i64)
    ensures
        SearchError::spec_is_known_error_code(code) <==> SearchError::spec_is_named_code(code),
        spec_error_of_code::<SearchError>(code) == (if SearchError::spec_is_known_error_code(code) {
            ApiErrorView::Known(code)
        } else {
            ApiErrorView::UnknownCode(code, unknown_code_message())
        }),
{
}

#[derive(Debug)]
pub struct SearchEngine {
    pub is_enabled: Boolean,
    pub key: String,
    pub title: String,
    pub description: Option<String>,
    pub logo: Option<String>,
    pub website: Option<String>,
    pub is_available: Option<Boolean>,
    pub config: Option<Vec<Option<KeyValuePair>>>,
}

#[derive(Debug)]
pub struct SearchEngineInput {
    pub is_enabled: Boolean,
    pub key: String,
    pub config: Option<Vec<Option<KeyValuePairInput>>>,
}

/// Reads the answer to the `SearchEngineList` query: the listed items, without the absent ones, or the error
/// that the answer or the transport reports.
pub fn search_engine_list(response: Result<Response<search_engine_list::ResponseData>, String>) -> (result: Result<Vec<SearchEngine>, SearchError>)
    requires
        response matches Ok(body) ==> (search_engine_list::spec_payload(body.data) is None ==> first_error_code_readable(
            body.errors,
        )),
    ensures
        match response {
            Err(message) => result matches Err(err) && err@ == ApiErrorView::UnknownMessage(message@),
            Ok(body) => match search_engine_list::spec_payload(body.data) {
                Some(payload) => result matches Ok(items) && items@ == flatten_seq(payload@),
                None => result matches Err(err) && err@ == spec_classify_response_error::<SearchError>(
                    body.errors,
                ),
            },
        },
{
    let body = match response {
        Ok(body) => body,
        Err(message) => {
            return Err(SearchError::UnknownErrorMessage { message });
        },
    };
    let Response { data, errors } = body;
    if let Some(data) = data {
        if let Some(search) = data.search {
            if let Some(search_engines) = search.search_engines {
                return Ok(flatten(search_engines));
            }
        }
    }
    Err(classify_response_error(errors))
}

/// Reads the answer to the `SearchEngineIndexRebuild` mutation: success where the server reports it, or the error
/// that the answer or the transport reports.
pub fn search_engine_index_rebuild(response: Result<Response<search_engine_index_rebuild::ResponseData>, String>) -> (result: Result<(), SearchError>)
    requires
        response matches Ok(body) ==> (search_engine_index_rebuild::spec_payload(body.data) is None ==> first_error_code_readable(
            body.errors,
        )),
    ensures
        match response {
            Err(message) => result matches Err(err) && err@ == ApiErrorView::UnknownMessage(message@),
            Ok(body) => match search_engine_index_rebuild::spec_payload(body.data) {
                Some(payload) => if payload.succeeded {
                    result is Ok
                } else {
                    result matches Err(err) && err@ == spec_classify_response_status_error::<SearchError>(payload)
                },
                None => result matches Err(err) && err@ == spec_classify_response_error::<SearchError>(
                    body.errors,
                ),
            },
        },
{
    let body = match response {
        Ok(body) => body,
        Err(message) => {
            return Err(SearchError::UnknownErrorMessage { message });
        },
    };
    let Response { data, errors } = body;
    if let Some(data) = data {
        if let Some(search) = data.search {
            if let Some(rebuild_index) = search.rebuild_index {
                if let Some(response_result) = rebuild_index.response_result {
                    if response_result.succeeded {
                        return Ok(());
                    } else {
                        return Err(classify_response_status_error(response_result));
                    }
                }
            }
        }
    }
    Err(classify_response_error(errors))
}

/// Reads the answer to the `SearchEngineUpdate` mutation: success where the server reports it, or the error
/// that the answer or the transport reports.
pub fn search_engine_update(response: Result<Response<search_engine_update::ResponseData>, String>) -> (result: Result<(), SearchError>)
    requires
        response matches Ok(body) ==> (search_engine_update::spec_payload(body.data) is None ==> first_error_code_readable(
            body.errors,
        )),
    ensures
        match response {
            Err(message) => result matches Err(err) && err@ == ApiErrorView::UnknownMessage(message@),
            Ok(body) => match search_engine_update::spec_payload(body.data) {
                Some(payload) => if payload.succeeded {
                    result is Ok
                } else {
                    result matches Err(err) && err@ == spec_classify_response_status_error::<SearchError>(payload)
                },
                None => result matches Err(err) && err@ == spec_classify_response_error::<SearchError>(
                    body.errors,
                ),
            },
        },
{
    let body = match response {
        Ok(body) => body,
        Err(message) => {
            return Err(SearchError::UnknownErrorMessage { message });
        },
    };
    let Response { data, errors } = body;
    if let Some(data) = data {
        if let Some(search) = data.search {
            if let Some(update_search_engines) = search.update_search_engines {
                if let Some(response_result) = update_search_engines.response_result {
                    if response_result.succeeded {
                        return Ok(());
                    } else {
                        return Err(classify_response_status_error(response_result));
                    }
                }
            }
        }
    }
    Err(classify_response_error(errors))
}

} // verus!
