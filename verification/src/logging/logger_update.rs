//! The `LoggerUpdate` mutation.

use vstd::prelude::*;

use crate::common::ResponseStatus;
use crate::logging::LoggerInput;

verus! {

pub struct LoggerUpdate;

pub const OPERATION_NAME: &'static str = "LoggerUpdate";

pub const QUERY: &'static str = "mutation LoggerUpdate($loggers: [LoggerInput]) {\n  logging {\n    updateLoggers(loggers: $loggers) {\n      responseResult {\n        succeeded\n        errorCode\n        slug\n        message\n      }\n    }\n  }\n}\n";

#[derive(Debug)]
pub struct Variables {
    pub loggers: Option<Vec<Option<LoggerInput>>>,
}

#[derive(Debug)]
pub struct ResponseData {
    pub logging: Option<Logging>,
}

#[derive(Debug)]
pub struct Logging {
    pub update_loggers: Option<UpdateLoggers>,
}

#[derive(Debug)]
pub struct UpdateLoggers {
    pub response_result: Option<ResponseStatus>,
}

/// The status of the mutation, where the answer holds it.
pub open spec fn spec_payload(data: Option<ResponseData>) -> Option<ResponseStatus> {
    match data {
        Some(ResponseData { logging: Some(Logging { update_loggers: Some(UpdateLoggers { response_result: Some(response_result) }) }) }) => Some(response_result),
        _ => None,
    }
}

/// Tells whether the answer holds the status of the mutation.
pub fn has_payload(data: &Option<ResponseData>) -> (present: bool)
    ensures
        present == spec_payload(*data) is Some,
{
    match data {
        Some(ResponseData { logging: Some(Logging { update_loggers: Some(UpdateLoggers { response_result: Some(_) }) }) }) => true,
        _ => false,
    }
}

/// Where the answer holds the status of the mutation: read off the path of fields that lead to
/// it; an absent field on the way means the answer does not hold it.
pub proof fn lemma_answer_read(data: ResponseData, logging: Logging, update_loggers: UpdateLoggers, response_result: ResponseStatus)
    ensures
        spec_payload(None) is None,
        data.logging is None ==> spec_payload(Some(data)) is None,
        data.logging == Some(logging) && logging.update_loggers is None ==> spec_payload(Some(data)) is None,
        data.logging == Some(logging) && logging.update_loggers == Some(update_loggers) && update_loggers.response_result is None ==> spec_payload(Some(data)) is None,
        data.logging == Some(logging) && logging.update_loggers == Some(update_loggers) && update_loggers.response_result == Some(response_result) ==> spec_payload(Some(data)) == Some(response_result),
{
}

} // verus!
