//! The `TelemetrySet` mutation.

use vstd::prelude::*;

use crate::common::{Boolean, ResponseStatus};

verus! {

pub struct TelemetrySet;

pub const OPERATION_NAME: &'static str = "TelemetrySet";

pub const QUERY: &'static str = "mutation TelemetrySet($enabled: Boolean!) {\n  system {\n    setTelemetry(enabled: $enabled) {\n      responseResult {\n        succeeded\n        errorCode\n        slug\n        message\n      }\n    }\n  }\n}\n";

#[derive(Debug)]
pub struct Variables {
    pub enabled: Boolean,
}

#[derive(Debug)]
pub struct ResponseData {
    pub system: Option<System>,
}

#[derive(Debug)]
pub struct System {
    pub set_telemetry: Option<SetTelemetry>,
}

#[derive(Debug)]
pub struct SetTelemetry {
    pub response_result: Option<ResponseStatus>,
}

/// The status of the mutation, where the answer holds it.
pub open spec fn spec_payload(data: Option<ResponseData>) -> Option<ResponseStatus> {
    match data {
        Some(ResponseData { system: Some(System { set_telemetry: Some(SetTelemetry { response_result: Some(response_result) }) }) }) => Some(response_result),
        _ => None,
    }
}

/// Tells whether the answer holds the status of the mutation.
pub fn has_payload(data: &Option<ResponseData>) -> (present: bool)
    ensures
        present == spec_payload(*data) is Some,
{
    match data {
        Some(ResponseData { system: Some(System { set_telemetry: Some(SetTelemetry { response_result: Some(_) }) }) }) => true,
        _ => false,
    }
}

/// Where the answer holds the status of the mutation: read off the path of fields that lead to
/// it; an absent field on the way means the answer does not hold it.
pub proof fn lemma_answer_read(data: ResponseData, system: System, set_telemetry: SetTelemetry, response_result: ResponseStatus)
    ensures
        spec_payload(None) is None,
        data.system is None ==> spec_payload(Some(data)) is None,
        data.system == Some(system) && system.set_telemetry is None ==> spec_payload(Some(data)) is None,
        data.system == Some(system) && system.set_telemetry == Some(set_telemetry) && set_telemetry.response_result is None ==> spec_payload(Some(data)) is None,
        data.system == Some(system) && system.set_telemetry == Some(set_telemetry) && set_telemetry.response_result == Some(response_result) ==> spec_payload(Some(data)) == Some(response_result),
{
}

} // verus!
