//! The `AssetRename` mutation.

use vstd::prelude::*;

use crate::common::{Int, ResponseStatus};

verus! {

pub struct AssetRename;

pub const OPERATION_NAME: &'static str = "AssetRename";

pub const QUERY: &'static str = "mutation AssetRename($id: Int!, $filename: String!) {\n  assets {\n    renameAsset(id: $id, filename: $filename) {\n      responseResult {\n        succeeded\n        errorCode\n        slug\n        message\n      }\n    }\n  }\n}\n";

#[derive(Debug)]
pub struct Variables {
    pub id: Int,
    pub filename: String,
}

#[derive(Debug)]
pub struct ResponseData {
    pub assets: Option<Assets>,
}

#[derive(Debug)]
pub struct Assets {
    pub rename_asset: Option<RenameAsset>,
}

#[derive(Debug)]
pub struct RenameAsset {
    pub response_result: Option<ResponseStatus>,
}

/// The status of the mutation, where the answer holds it.
pub open spec fn spec_payload(data: Option<ResponseData>) -> Option<ResponseStatus> {
    match data {
        Some(ResponseData { assets: Some(Assets { rename_asset: Some(RenameAsset { response_result: Some(response_result) }) }) }) => Some(response_result),
        _ => None,
    }
}

/// Tells whether the answer holds the status of the mutation.
pub fn has_payload(data: &Option<ResponseData>) -> (present: bool)
    ensures
        present == spec_payload(*data) is Some,
{
    match data {
        Some(ResponseData { assets: Some(Assets { rename_asset: Some(RenameAsset { response_result: Some(_) }) }) }) => true,
        _ => false,
    }
}

/// Where the answer holds the status of the mutation: read off the path of fields that lead to
/// it; an absent field on the way means the answer does not hold it.
pub proof fn lemma_answer_read(data: ResponseData, assets: Assets, rename_asset: RenameAsset, response_result: ResponseStatus)
    ensures
        spec_payload(None) is None,
        data.assets is None ==> spec_payload(Some(data)) is None,
        data.assets == Some(assets) && assets.rename_asset is None ==> spec_payload(Some(data)) is None,
        data.assets == Some(assets) && assets.rename_asset == Some(rename_asset) && rename_asset.response_result is None ==> spec_payload(Some(data)) is None,
        data.assets == Some(assets) && assets.rename_asset == Some(rename_asset) && rename_asset.response_result == Some(response_result) ==> spec_payload(Some(data)) == Some(response_result),
{
}

} // verus!
