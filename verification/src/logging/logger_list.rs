//! The `LoggerList` query.

use vstd::prelude::*;

use crate::logging::Logger;

verus! {

pub struct LoggerList;

pub const OPERATION_NAME: &'static str = "LoggerList";

pub const QUERY: &'static str = "query LoggerList($filter: String, $orderBy: String) {\n  logging {\n    loggers(filter: $filter, orderBy: $orderBy) {\n      isEnabled\n      key\n      title\n      description\n      logo\n      website\n      level\n      config {\n        key\n        value\n      }\n    }\n  }\n}\n";

#[derive(Debug)]
pub struct Variables {
    pub filter: Option<String>,
    pub order_by: Option<String>,
}

#[derive(Debug)]
pub struct ResponseData {
    pub logging: Option<Logging>,
}

#[derive(Debug)]
pub struct Logging {
    pub loggers: Option<Vec<Option<Logger>>>,
}

/// The listed items, where the answer holds them.
pub open spec fn spec_payload(data: Option<ResponseData>) -> Option<Vec<Option<Logger>>> {
    match data {
        Some(ResponseData { logging: Some(Logging { loggers: Some(loggers) }) }) => Some(loggers),
        _ => None,
    }
}

/// Tells whether the answer holds the listed items.
pub fn has_payload(data: &Option<ResponseData>) -> (present: bool)
    ensures
        present == spec_payload(*data) is Some,
{
    match data {
        Some(ResponseData { logging: Some(Logging { loggers: Some(_) }) }) => true,
        _ => false,
    }
}

/// Where the answer holds the listed items: read off the path of fields that lead to
/// it; an absent field on the way means the answer does not hold it.
pub proof fn lemma_answer_read(data: ResponseData, logging: Logging, loggers: Vec<Option<Logger>>)
    ensures
        spec_payload(None) is None,
        data.logging is None ==> spec_payload(Some(data)) is None,
        data.logging == Some(logging) && logging.loggers is None ==> spec_payload(Some(data)) is None,
        data.logging == Some(logging) && logging.loggers == Some(loggers) ==> spec_payload(Some(data)) == Some(loggers),
{
}

} // verus!
