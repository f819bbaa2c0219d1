//! The `SystemUserImportFromV1` mutation.

use vstd::prelude::*;

use crate::common::ResponseStatus;
use crate::system::SystemImportUsersGroupMode;

verus! {

pub struct SystemUserImportFromV1;

pub const OPERATION_NAME: &'static str = "SystemUserImportFromV1";

pub const QUERY: &'static str = "mutation SystemUserImportFromV1(\n  $mongoDbConnString: String!\n  $groupCode: SystemImportUsersGroupMode!\n) {\n  system {\n    importUsersFromV1(\n      mongoDbConnString: $mongoDbConnString\n      groupCode: $groupCode\n    ) {\n      responseResult {\n        succeeded\n        errorCode\n        slug\n        message\n      }\n    }\n  }\n}\n";

#[derive(Debug)]
pub struct Variables {
    pub mongo_db_conn_string: String,
    pub group_code: SystemImportUsersGroupMode,
}

#[derive(Debug)]
pub struct ResponseData {
    pub system: Option<System>,
}

#[derive(Debug)]
pub struct System {
    pub import_users_from_v1: Option<ImportUsersFromV1>,
}

#[derive(Debug)]
pub struct ImportUsersFromV1 {
    pub response_result: Option<ResponseStatus>,
}

/// The status of the mutation, where the answer holds it.
pub open spec fn spec_payload(data: Option<ResponseData>) -> Option<ResponseStatus> {
    match data {
        Some(ResponseData { system: Some(System { import_users_from_v1: Some(ImportUsersFromV1 { response_result: Some(response_result) }) }) }) => Some(response_result),
        _ => None,
    }
}

/// Tells whether the answer holds the status of the mutation.
pub fn has_payload(data: &Option<ResponseData>) -> (present: bool)
    ensures
        present == spec_payload(*data) is Some,
{
    match data {
        Some(ResponseData { system: Some(System { import_users_from_v1: Some(ImportUsersFromV1 { response_result: Some(_) }) }) }) => true,
        _ => false,
    }
}

/// Where the answer holds the status of the mutation: read off the path of fields that lead to
/// it; an absent field on the way means the answer does not hold it.
pub proof fn lemma_answer_read(data: ResponseData, system: System, import_users_from_v1: ImportUsersFromV1, response_result: ResponseStatus)
    ensures
        spec_payload(None) is None,
        data.system is None ==> spec_payload(Some(data)) is None,
        data.system == Some(system) && system.import_users_from_v1 is None ==> spec_payload(Some(data)) is None,
        data.system == Some(system) && system.import_users_from_v1 == Some(import_users_from_v1) && import_users_from_v1.response_result is None ==> spec_payload(Some(data)) is None,
        data.system == Some(system) && system.import_users_from_v1 == Some(import_users_from_v1) && import_users_from_v1.response_result == Some(response_result) ==> spec_payload(Some(data)) == Some(response_result),
{
}

} // verus!
