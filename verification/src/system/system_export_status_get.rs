//! The `SystemExportStatusGet` query.

use vstd::prelude::*;

use crate::common::ResponseStatus;

verus! {

pub struct SystemExportStatusGet;

pub const OPERATION_NAME: &'static str = "SystemExportStatusGet";

pub const QUERY: &'static str = "query SystemExportStatusGet{\n  system {\n    exportStatus {\n      status\n      progress\n      message\n      startedAt\n    }\n  }\n}\n";

#[derive(Debug)]
pub struct Variables;

#[derive(Debug)]
pub struct ResponseData {
    pub system: Option<System>,
}

#[derive(Debug)]
pub struct System {
    pub export_status: Option<ResponseStatus>,
}

/// The status of the mutation, where the answer holds it.
pub open spec fn spec_payload(data: Option<ResponseData>) -> Option<ResponseStatus> {
    match data {
        Some(ResponseData { system: Some(System { export_status: Some(export_status) }) }) => Some(export_status),
        _ => None,
    }
}

/// Tells whether the answer holds the status of the mutation.
pub fn has_payload(data: &Option<ResponseData>) -> (present: bool)
    ensures
        present == spec_payload(*data) is Some,
{
    match data {
        Some(ResponseData { system: Some(System { export_status: Some(_) }) }) => true,
        _ => false,
    }
}

/// Where the answer holds the status of the mutation: read off the path of fields that lead to
/// it; an absent field on the way means the answer does not hold it.
pub proof fn lemma_answer_read(data: ResponseData, system: System, export_status: ResponseStatus)
    ensures
        spec_payload(None) is None,
        data.system is None ==> spec_payload(Some(data)) is None,
        data.system == Some(system) && system.export_status is None ==> spec_payload(Some(data)) is None,
        data.system == Some(system) && system.export_status == Some(export_status) ==> spec_payload(Some(data)) == Some(export_status),
{
}

} // verus!
