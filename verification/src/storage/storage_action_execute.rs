//! The `StorageActionExecute` mutation.

use vstd::prelude::*;

use crate::common::ResponseStatus;

verus! {

pub struct StorageActionExecute;

pub const OPERATION_NAME: &'static str = "StorageActionExecute";

pub const QUERY: &'static str = "mutation StorageActionExecute(\n  $targetKey: String!\n  $handler: String!\n) {\n  storage {\n    executeAction(\n      targetKey: $targetKey\n      handler: $handler\n    ) {\n      responseResult {\n        succeeded\n        errorCode\n        slug\n        message\n      }\n    }\n  }\n}\n";

#[derive(Debug)]
pub struct Variables {
    pub target_key: String,
    pub handler: String,
}

#[derive(Debug)]
pub struct ResponseData {
    pub storage: Option<Storage>,
}

#[derive(Debug)]
pub struct Storage {
    pub execute_action: Option<ExecuteAction>,
}

#[derive(Debug)]
pub struct ExecuteAction {
    pub response_result: Option<ResponseStatus>,
}

/// The status of the mutation, where the answer holds it.
pub open spec fn spec_payload(data: Option<ResponseData>) -> Option<ResponseStatus> {
    match data {
        Some(ResponseData { storage: Some(Storage { execute_action: Some(ExecuteAction { response_result: Some(response_result) }) }) }) => Some(response_result),
        _ => None,
    }
}

/// Tells whether the answer holds the status of the mutation.
pub fn has_payload(data: &Option<ResponseData>) -> (present: bool)
    ensures
        present == spec_payload(*data) is Some,
{
    match data {
        Some(ResponseData { storage: Some(Storage { execute_action: Some(ExecuteAction { response_result: Some(_) }) }) }) => true,
        _ => false,
    }
}

/// Where the answer holds the status of the mutation: read off the path of fields that lead to
/// it; an absent field on the way means the answer does not hold it.
pub proof fn lemma_answer_read(data: ResponseData, storage: Storage, execute_action: ExecuteAction, response_result: ResponseStatus)
    ensures
        spec_payload(None) is None,
        data.storage is None ==> spec_payload(Some(data)) is None,
        data.storage == Some(storage) && storage.execute_action is None ==> spec_payload(Some(data)) is None,
        data.storage == Some(storage) && storage.execute_action == Some(execute_action) && execute_action.response_result is None ==> spec_payload(Some(data)) is None,
        data.storage == Some(storage) && storage.execute_action == Some(execute_action) && execute_action.response_result == Some(response_result) ==> spec_payload(Some(data)) == Some(response_result),
{
}

} // verus!
