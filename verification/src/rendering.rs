//! Renderers.

use vstd::prelude::*;

use crate::common::{ApiErrorView, KnownErrorCodes, UnknownError, decimal, int_to_string, spec_error_of_code, unknown_code_message};

verus! {

/// The errors of the endpoints of this module, named after the Wiki.js
/// error codes they stand for.
#[derive(Debug, PartialEq)]
pub enum RenderingError {
    UnknownErrorCode { code: i64, message: String },
    UnknownErrorMessage { message: String },
    UnknownError,
}

impl View for RenderingError {
    type V = ApiErrorView;

    open spec fn view(&self) -> ApiErrorView {
        match self {
            RenderingError::UnknownErrorCode { code, message } => ApiErrorView::UnknownCode(*code, message@),
            RenderingError::UnknownErrorMessage { message } => ApiErrorView::UnknownMessage(message@),
            RenderingError::UnknownError => ApiErrorView::Unknown,
        }
    }
}

impl RenderingError {
    /// The text that describes the error.
    pub open spec fn spec_to_string(&self) -> Seq<char> {
        match self {
            RenderingError::UnknownErrorCode { code, message } => "Unknown response error code: "@ + decimal(*code as int) + ": "@ + message@,
            RenderingError::UnknownErrorMessage { message } => "Unknown response error: "@ + message@,
            RenderingError::UnknownError => "Unknown response error."@,
        }
    }

    /// The text that describes the error.
    pub fn to_string(&self) -> (text: String)
        ensures
            text@ == self.spec_to_string(),
    {
        match self {
            RenderingError::UnknownErrorCode { code, message } => {
                let mut text = String::from_str("Unknown response error code: ");
                text.append(int_to_string(*code).as_str());
                text.append(": ");
                text.append(message.as_str());
                text
            },
            RenderingError::UnknownErrorMessage { message } => {
                let mut text = String::from_str("Unknown response error: ");
                text.append(message.as_str());
                text
            },
            RenderingError::UnknownError => String::from_str("Unknown response error."),
        }
    }
}

impl UnknownError for RenderingError {
    open spec fn spec_is_named_code(code: i64) -> bool {
        false
    }

    fn unknown_error_code(code: i64, message: String) -> (err: Self) {
        RenderingError::UnknownErrorCode { code, message }
    }

    fn unknown_error_message(message: String) -> (err: Self) {
        RenderingError::UnknownErrorMessage { message }
    }

    fn unknown_error() -> (err: Self) {
        RenderingError::UnknownError
    }

    fn from_error_code(code: i64) -> (err: Self) {
        let message = String::from_str("Unknown error");
        RenderingError::UnknownErrorCode { code, message }
    }
}

impl From<i64> for RenderingError {
    /// The error of a Wiki.js error code: its own variant where the type
    /// names the code, else an unknown-code error.
    fn from(code: i64) -> (err: Self)
        ensures
            err@ == spec_error_of_code::<RenderingError>(code),
    {
        RenderingError::from_error_code(code)
    }
}

/// `from` is specified by its own `ensures`, over the error's view: an
/// unknown-code error holds a `String`, which no spec function builds, so the
/// generic specification of `From` is not claimed.
impl vstd::std_specs::convert::FromSpecImpl<i64> for RenderingError {
    open spec fn obeys_from_spec() -> bool {
        false
    }

    open spec fn from_spec(code: i64) -> Self {
        RenderingError::UnknownError
    }
}

impl KnownErrorCodes for RenderingError {
    open spec fn spec_known_error_codes() -> Seq<i64> {
        Seq::empty()
    }

    open spec fn spec_is_known_error_code(code: i64) -> bool {
        false
    }

    fn known_error_codes() -> (codes: Vec<i64>) {
        let codes: Vec<i64> = Vec::new();
        proof {
            assert(codes@ =~= Self::spec_known_error_codes());
        }
        codes
    }

    fn is_known_error_code(code: i64) -> (known: bool) {
        false
    }
}

/// The codes that `RenderingError::known_error_codes` lists are exactly the codes that
/// `RenderingError::is_known_error_code` accepts.
pub proof fn lemma_known_error_codes_listed(code: i64)
    ensures
        RenderingError::spec_known_error_codes().contains(code) <==> RenderingError::spec_is_known_error_code(code),
{
}

/// A code is known to `RenderingError` exactly when the type has a variant of its own
/// for it: `RenderingError::from` gives the known error for the known codes and an
/// unknown-code error for every other code.
pub proof fn lemma_known_error_codes_named(code: i64)
    ensures
        RenderingError::spec_is_known_error_code(code) <==> RenderingError::spec_is_named_code(code),
        spec_error_of_code::<RenderingError>(code) == (if RenderingError::spec_is_known_error_code(code) {
            ApiErrorView::Known(code)
        } else {
            ApiErrorView::UnknownCode(code, unknown_code_message())
        }),
{
}

} // verus!
