//! Types and functions that every endpoint module shares.

use vstd::prelude::*;

verus! {

pub type Boolean = bool;

pub type Int = i64;

pub type Date = String;

/// A key and its value, as the API hands out configuration entries.
#[derive(Debug)]
pub struct KeyValuePair {
    pub key: String,
    pub value: String,
}

/// A key and its value, as the API takes configuration entries.
#[derive(Debug)]
pub struct KeyValuePairInput {
    pub key: String,
    pub value: String,
}

/// The status block that every mutation of the API answers with.
#[derive(Debug)]
pub struct ResponseStatus {
    pub succeeded: Boolean,
    pub error_code: Int,
    pub slug: String,
    pub message: Option<String>,
}

/// What a GraphQL error carries under `extensions.exception.code`.
#[derive(Debug)]
pub enum ExceptionCode {
    /// The error has no extensions, no `exception` entry or no `code` in it.
    Absent,
    /// The code is a number that fits an `i64`.
    Integer(i64),
    /// The code is there but is no `i64` (a string, a float, ...).
    NotAnInteger,
}

/// A GraphQL error as the server reports it, reduced to what the library reads.
#[derive(Debug)]
pub struct ResponseError {
    pub message: String,
    pub exception_code: ExceptionCode,
}

/// A GraphQL response: the data, if any, and the top-level errors, if any.
#[derive(Debug)]
pub struct Response<Data> {
    pub data: Option<Data>,
    pub errors: Option<Vec<ResponseError>>,
}

/// The mathematical view of an endpoint's error: the code of a known error,
/// or one of the three catch-all errors with what they carry.
pub enum ApiErrorView {
    /// An error that the endpoint's error type names, by its Wiki.js code.
    Known(i64),
    /// An error code that the endpoint's error type does not name.
    UnknownCode(i64, Seq<char>),
    /// An error without a code, with its message.
    UnknownMessage(Seq<char>),
    /// An error about which nothing is known.
    Unknown,
}

/// The message that an error built from an unnamed code carries.
pub open spec fn unknown_code_message() -> Seq<char> {
    "Unknown error"@
}

/// Constructors of the catch-all variants of an endpoint's error type, and
/// of the error of a Wiki.js error code.
pub trait UnknownError: Sized + View<V = ApiErrorView> {
    /// The codes that the error type names with a variant of its own.
    spec fn spec_is_named_code(code: i64) -> bool;

    fn unknown_error_code(code: i64, message: String) -> (err: Self)
        ensures
            err@ == ApiErrorView::UnknownCode(code, message@),
    ;

    fn unknown_error_message(message: String) -> (err: Self)
        ensures
            err@ == ApiErrorView::UnknownMessage(message@),
    ;

    fn unknown_error() -> (err: Self)
        ensures
            err@ == ApiErrorView::Unknown,
    ;

    fn from_error_code(code: i64) -> (err: Self)
        ensures
            err@ == (if Self::spec_is_named_code(code) {
                ApiErrorView::Known(code)
            } else {
                ApiErrorView::UnknownCode(code, unknown_code_message())
            }),
    ;
}

/// The error that a Wiki.js error code stands for in an endpoint's error type.
pub open spec fn spec_error_of_code<E: UnknownError>(code: i64) -> ApiErrorView {
    if E::spec_is_named_code(code) {
        ApiErrorView::Known(code)
    } else {
        ApiErrorView::UnknownCode(code, unknown_code_message())
    }
}

/// The error codes that an endpoint lists as its own.
pub trait KnownErrorCodes: Sized {
    spec fn spec_known_error_codes() -> Seq<i64>;

    spec fn spec_is_known_error_code(code: i64) -> bool;

    fn known_error_codes() -> (codes: Vec<i64>)
        ensures
            codes@ == Self::spec_known_error_codes(),
    ;

    fn is_known_error_code(code: i64) -> (known: bool)
        ensures
            known == Self::spec_is_known_error_code(code),
    ;
}

/// The error that the first of the server's errors stands for: the error of
/// its exception code if it has one, else an unknown error with its message;
/// with no errors at all, the plain unknown error.
pub open spec fn spec_classify_response_error<E: UnknownError>(
    response_errors: Option<Vec<ResponseError>>,
) -> ApiErrorView {
    match response_errors {
        Some(errors) if errors@.len() > 0 => match errors@[0].exception_code {
            ExceptionCode::Integer(code) => spec_error_of_code::<E>(code),
            _ => ApiErrorView::UnknownMessage(errors@[0].message@),
        },
        _ => ApiErrorView::Unknown,
    }
}

/// The first of the server's errors, if any, carries no code that is not an
/// `i64`.
pub open spec fn first_error_code_readable(response_errors: Option<Vec<ResponseError>>) -> bool {
    match response_errors {
        Some(errors) if errors@.len() > 0 => !(errors@[0].exception_code is NotAnInteger),
        _ => true,
    }
}

/// Tells whether the first of the server's errors, if any, carries no code
/// that is not an `i64`, so that its error can be told.
pub fn error_code_readable(response_errors: &Option<Vec<ResponseError>>) -> (readable: bool)
    ensures
        readable == first_error_code_readable(*response_errors),
{
    match response_errors {
        Some(errors) => {
            if errors.len() > 0 {
                match errors[0].exception_code {
                    ExceptionCode::NotAnInteger => false,
                    _ => true,
                }
            } else {
                true
            }
        },
        None => true,
    }
}

/// Turns the errors of a GraphQL response into the endpoint's error type.
pub fn classify_response_error<E: UnknownError>(response_errors: Option<Vec<ResponseError>>) -> (err:
    E)
    requires
        first_error_code_readable(response_errors),
    ensures
        err@ == spec_classify_response_error::<E>(response_errors),
{
    if let Some(errors) = response_errors {
        if errors.len() > 0 {
            let mut errors = errors;
            let error = errors.swap_remove(0);
            match error.exception_code {
                ExceptionCode::Integer(code) => {
                    return E::from_error_code(code);
                },
                _ => {
                    return E::unknown_error_message(error.message);
                },
            }
        }
    }
    E::unknown_error()
}

/// The error that a failed mutation's status stands for: an unknown error
/// with the server's message where the code is none of the endpoint's and
/// the server sent a message, else the error of the code.
pub open spec fn spec_classify_response_status_error<E: UnknownError + KnownErrorCodes>(
    response_status: ResponseStatus,
) -> ApiErrorView {
    if !E::spec_is_known_error_code(response_status.error_code) && response_status.message is Some {
        ApiErrorView::UnknownCode(response_status.error_code, response_status.message->0@)
    } else {
        spec_error_of_code::<E>(response_status.error_code)
    }
}

/// Turns the status of a failed mutation into the endpoint's error type.
pub fn classify_response_status_error<E: UnknownError + KnownErrorCodes>(
    response_status: ResponseStatus,
) -> (err: E)
    ensures
        err@ == spec_classify_response_status_error::<E>(response_status),
{
    if !E::is_known_error_code(response_status.error_code) {
        if let Some(message) = response_status.message {
            return E::unknown_error_code(response_status.error_code, message);
        }
    }
    E::from_error_code(response_status.error_code)
}

/// The decimal digits of a natural number.
pub open spec fn decimal_digits(n: nat) -> Seq<char>
    decreases n,
{
    let digit = (('0' as int) + (n % 10) as int) as char;
    if n < 10 {
        seq![digit]
    } else {
        decimal_digits(n / 10).push(digit)
    }
}

/// An integer written in decimal, with a minus sign where it is negative.
pub open spec fn decimal(n: int) -> Seq<char> {
    if n < 0 {
        seq!['-'] + decimal_digits((-n) as nat)
    } else {
        decimal_digits(n as nat)
    }
}

/// The text of one decimal digit.
fn digit_text(d: u64) -> (text: String)
    requires
        d < 10,
    ensures
        text@ == seq![(('0' as int) + d as int) as char],
{
    proof {
        reveal_strlit("0");
        reveal_strlit("1");
        reveal_strlit("2");
        reveal_strlit("3");
        reveal_strlit("4");
        reveal_strlit("5");
        reveal_strlit("6");
        reveal_strlit("7");
        reveal_strlit("8");
        reveal_strlit("9");
    }
    let text = match d {
        0 => String::from_str("0"),
        1 => String::from_str("1"),
        2 => String::from_str("2"),
        3 => String::from_str("3"),
        4 => String::from_str("4"),
        5 => String::from_str("5"),
        6 => String::from_str("6"),
        7 => String::from_str("7"),
        8 => String::from_str("8"),
        _ => String::from_str("9"),
    };
    assert(text@ =~= seq![(('0' as int) + d as int) as char]);
    text
}

/// Writes a natural number in decimal.
fn digits_to_string(n: u64) -> (text: String)
    ensures
        text@ == decimal_digits(n as nat),
    decreases n,
{
    if n < 10 {
        digit_text(n)
    } else {
        let mut text = digits_to_string(n / 10);
        let last = digit_text(n % 10);
        text.append(last.as_str());
        text
    }
}

/// Writes an integer in decimal, with a minus sign where it is negative.
pub(crate) fn int_to_string(n: i64) -> (text: String)
    ensures
        text@ == decimal(n as int),
{
    if n < 0 {
        let magnitude: u64 = (-(n + 1)) as u64 + 1;
        let mut text = String::from_str("-");
        proof {
            reveal_strlit("-");
        }
        let digits = digits_to_string(magnitude);
        text.append(digits.as_str());
        assert(text@ =~= seq!['-'] + decimal_digits((-n) as nat));
        text
    } else {
        digits_to_string(n as u64)
    }
}

/// An HTTP status code in the success class, 200 to 299.
pub open spec fn is_success_status(status: u16) -> bool {
    200 <= status <= 299
}

/// Tells whether an HTTP status code is in the success class.
pub fn http_status_is_success(status: u16) -> (success: bool)
    ensures
        success == is_success_status(status),
{
    200 <= status && status <= 299
}

/// The present items of a list, in their order.
pub open spec fn flatten_seq<T>(items: Seq<Option<T>>) -> Seq<T>
    decreases items.len(),
{
    if items.len() == 0 {
        Seq::empty()
    } else {
        let rest = flatten_seq(items.drop_last());
        match items.last() {
            Some(item) => rest.push(item),
            None => rest,
        }
    }
}

/// Drops the absent items of a list and keeps the others in their order.
pub fn flatten<T>(items: Vec<Option<T>>) -> (present: Vec<T>)
    ensures
        present@ == flatten_seq(items@),
{
    let mut present: Vec<T> = Vec::new();
    let ghost all = items@;
    for item in it: items
        invariant
            it.seq() == all,
            present@ == flatten_seq(all.take(it.index() as int)),
    {
        proof {
            assert(all.take(it.index() as int + 1).drop_last() =~= all.take(it.index() as int));
        }
        if let Some(value) = item {
            present.push(value);
        }
    }
    proof {
        assert(all.take(all.len() as int) =~= all);
    }
    present
}

} // verus!
