//! The `AssetFolderCreate` mutation.

use vstd::prelude::*;

use crate::common::{Int, ResponseStatus};

verus! {

pub struct AssetFolderCreate;

pub const OPERATION_NAME: &'static str = "AssetFolderCreate";

pub const QUERY: &'static str = "mutation AssetFolderCreate(\n  $parentFolderId: Int!\n  $slug: String!\n  $name: String\n) {\n  assets {\n    createFolder(\n      parentFolderId: $parentFolderId\n      slug: $slug\n      name: $name\n    ) {\n      responseResult {\n        succeeded\n        errorCode\n        slug\n        message\n      }\n    }\n  }\n}\n";

#[derive(Debug)]
pub struct Variables {
    pub parent_folder_id: Int,
    pub slug: String,
    pub name: Option<String>,
}

#[derive(Debug)]
pub struct ResponseData {
    pub assets: Option<Assets>,
}

#[derive(Debug)]
pub struct Assets {
    pub create_folder: Option<CreateFolder>,
}

#[derive(Debug)]
pub struct CreateFolder {
    pub response_result: Option<ResponseStatus>,
}

/// The status of the mutation, where the answer holds it.
pub open spec fn spec_payload(data: Option<ResponseData>) -> Option<ResponseStatus> {
    match data {
        Some(ResponseData { assets: Some(Assets { create_folder: Some(CreateFolder { response_result: Some(response_result) }) }) }) => Some(response_result),
        _ => None,
    }
}

/// Tells whether the answer holds the status of the mutation.
pub fn has_payload(data: &Option<ResponseData>) -> (present: bool)
    ensures
        present == spec_payload(*data) is Some,
{
    match data {
        Some(ResponseData { assets: Some(Assets { create_folder: Some(CreateFolder { response_result: Some(_) }) }) }) => true,
        _ => false,
    }
}

/// Where the answer holds the status of the mutation: read off the path of fields that lead to
/// it; an absent field on the way means the answer does not hold it.
pub proof fn lemma_answer_read(data: ResponseData, assets: Assets, create_folder: CreateFolder, response_result: ResponseStatus)
    ensures
        spec_payload(None) is None,
        data.assets is None ==> spec_payload(Some(data)) is None,
        data.assets == Some(assets) && assets.create_folder is None ==> spec_payload(Some(data)) is None,
        data.assets == Some(assets) && assets.create_folder == Some(create_folder) && create_folder.response_result is None ==> spec_payload(Some(data)) is None,
        data.assets == Some(assets) && assets.create_folder == Some(create_folder) && create_folder.response_result == Some(response_result) ==> spec_payload(Some(data)) == Some(response_result),
{
}

} // verus!
