//! The `SystemFlagsUpdate` mutation.

use vstd::prelude::*;

use crate::common::ResponseStatus;
use crate::system::SystemFlagInput;

verus! {

pub struct SystemFlagsUpdate;

pub const OPERATION_NAME: &'static str = "SystemFlagsUpdate";

pub const QUERY: &'static str = "mutation SystemFlagsUpdate($flags: [SystemFlagInput]!) {\n  system {\n    updateFlags(flags: $flags) {\n      responseResult {\n        succeeded\n        errorCode\n        slug\n        message\n      }\n    }\n  }\n}\n";

#[derive(Debug)]
pub struct Variables {
    pub flags: Vec<Option<SystemFlagInput>>,
}

#[derive(Debug)]
pub struct ResponseData {
    pub system: Option<System>,
}

#[derive(Debug)]
pub struct System {
    pub update_flags: Option<UpdateFlags>,
}

#[derive(Debug)]
pub struct UpdateFlags {
    pub response_result: Option<ResponseStatus>,
}

/// The status of the mutation, where the answer holds it.
pub open spec fn spec_payload(data: Option<ResponseData>) -> Option<ResponseStatus> {
    match data {
        Some(ResponseData { system: Some(System { update_flags: Some(UpdateFlags { response_result: Some(response_result) }) }) }) => Some(response_result),
        _ => None,
    }
}

/// Tells whether the answer holds the status of the mutation.
pub fn has_payload(data: &Option<ResponseData>) -> (present: bool)
    ensures
        present == spec_payload(*data) is Some,
{
    match data {
        Some(ResponseData { system: Some(System { update_flags: Some(UpdateFlags { response_result: Some(_) }) }) }) => true,
        _ => false,
    }
}

/// Where the answer holds the status of the mutation: read off the path of fields that lead to
/// it; an absent field on the way means the answer does not hold it.
pub proof fn lemma_answer_read(data: ResponseData, system: System, update_flags: UpdateFlags, response_result: ResponseStatus)
    ensures
        spec_payload(None) is None,
        data.system is None ==> spec_payload(Some(data)) is None,
        data.system == Some(system) && system.update_flags is None ==> spec_payload(Some(data)) is None,
        data.system == Some(system) && system.update_flags == Some(update_flags) && update_flags.response_result is None ==> spec_payload(Some(data)) is None,
        data.system == Some(system) && system.update_flags == Some(update_flags) && update_flags.response_result == Some(response_result) ==> spec_payload(Some(data)) == Some(response_result),
{
}

} // verus!
