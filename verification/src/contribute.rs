//! Contributors of the Wiki.js project.

pub mod contributor_list;

use vstd::prelude::*;

use crate::common::{ApiErrorView, Date, Response, UnknownError, classify_response_error, decimal, first_error_code_readable, flatten, flatten_seq, int_to_string, spec_classify_response_error, spec_error_of_code};

verus! {

/// The errors of the endpoints of this module, named after the Wiki.js
/// error codes they stand for.
#[derive(Debug, PartialEq)]
pub enum ContributeError {
    UnknownErrorCode { code: i64, message: String },
    UnknownErrorMessage { message: String },
    UnknownError,
}

impl View for ContributeError {
    type V = ApiErrorView;

    open spec fn view(&self) -> ApiErrorView {
        match self {
            ContributeError::UnknownErrorCode { code, message } => ApiErrorView::UnknownCode(*code, message@),
            ContributeError::UnknownErrorMessage { message } => ApiErrorView::UnknownMessage(message@),
            ContributeError::UnknownError => ApiErrorView::Unknown,
        }
    }
}

impl ContributeError {
    /// The text that describes the error.
    pub open spec fn spec_to_string(&self) -> Seq<char> {
        match self {
            ContributeError::UnknownErrorCode { code, message } => "Unknown response error code: "@ + decimal(*code as int) + ": "@ + message@,
            ContributeError::UnknownErrorMessage { message } => "Unknown response error: "@ + message@,
            ContributeError::UnknownError => "Unknown response error."@,
        }
    }

    /// The text that describes the error.
    pub fn to_string(&self) -> (text: String)
        ensures
            text@ == self.spec_to_string(),
    {
        match self {
            ContributeError::UnknownErrorCode { code, message } => {
                let mut text = String::from_str("Unknown response error code: ");
                text.append(int_to_string(*code).as_str());
                text.append(": ");
                text.append(message.as_str());
                text
            },
            ContributeError::UnknownErrorMessage { message } => {
                let mut text = String::from_str("Unknown response error: ");
                text.append(message.as_str());
                text
            },
            ContributeError::UnknownError => String::from_str("Unknown response error."),
        }
    }
}

impl UnknownError for ContributeError {
    open spec fn spec_is_named_code(code: i64) -> bool {
        false
    }

    fn unknown_error_code(code: i64, message: String) -> (err: Self) {
        ContributeError::UnknownErrorCode { code, message }
    }

    fn unknown_error_message(message: String) -> (err: Self) {
        ContributeError::UnknownErrorMessage { message }
    }

    fn unknown_error() -> (err: Self) {
        ContributeError::UnknownError
    }

    fn from_error_code(code: i64) -> (err: Self) {
        let message = String::from_str("Unknown error");
        ContributeError::UnknownErrorCode { code, message }
    }
}

impl From<i64> for ContributeError {
    /// The error of a Wiki.js error code: its own variant where the type
    /// names the code, else an unknown-code error.
    fn from(code: i64) -> (err: Self)
        ensures
            err@ == spec_error_of_code::<ContributeError>(code),
    {
        ContributeError::from_error_code(code)
    }
}

/// `from` is specified by its own `ensures`, over the error's view: an
/// unknown-code error holds a `String`, which no spec function builds, so the
/// generic specification of `From` is not claimed.
impl vstd::std_specs::convert::FromSpecImpl<i64> for ContributeError {
    open spec fn obeys_from_spec() -> bool {
        false
    }

    open spec fn from_spec(code: i64) -> Self {
        ContributeError::UnknownError
    }
}

#[derive(Debug)]
pub struct Contributor {
    pub id: String,
    pub source: String,
    pub name: String,
    pub joined: Date,
    pub website: Option<String>,
    pub twitter: Option<String>,
    pub avatar: Option<String>,
}

/// Reads the answer to the `ContributorList` query: the listed items, without the absent ones, or the error
/// that the answer or the transport reports.
pub fn contributor_list(response: Result<Response<contributor_list::ResponseData>, String>) -> (result: Result<Vec<Contributor>, ContributeError>)
    requires
        response matches Ok(body) ==> (contributor_list::spec_payload(body.data) is None ==> first_error_code_readable(
            body.errors,
        )),
        response matches Ok(body) ==> (contributor_list::spec_payload(body.data) matches Some(payload) ==> payload is Some),
    ensures
        match response {
            Err(message) => result matches Err(err) && err@ == ApiErrorView::UnknownMessage(message@),
            Ok(body) => match contributor_list::spec_payload(body.data) {
                Some(payload) => result matches Ok(items) && items@ == flatten_seq(payload->0@),
                None => result matches Err(err) && err@ == spec_classify_response_error::<ContributeError>(
                    body.errors,
                ),
            },
        },
{
    let body = match response {
        Ok(body) => body,
        Err(message) => {
            return Err(ContributeError::UnknownErrorMessage { message });
        },
    };
    let Response { data, errors } = body;
    if let Some(data) = data {
        if let Some(contribute) = data.contribute {
            let list = contribute.contributors.unwrap();
            return Ok(flatten(list));
        }
    }
    Err(classify_response_error(errors))
}

} // verus!
