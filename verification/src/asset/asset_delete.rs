//! The `AssetDelete` mutation.

use vstd::prelude::*;

use crate::common::{Int, ResponseStatus};

verus! {

pub struct AssetDelete;

pub const OPERATION_NAME: &'static str = "AssetDelete";

pub const QUERY: &'static str = "mutation AssetDelete($id: Int!) {\n  assets {\n    deleteAsset(id: $id) {\n      responseResult {\n        succeeded\n        errorCode\n        slug\n        message\n      }\n    }\n  }\n}\n";

#[derive(Debug)]
pub struct Variables {
    pub id: Int,
}

#[derive(Debug)]
pub struct ResponseData {
    pub assets: Option<Assets>,
}

#[derive(Debug)]
pub struct Assets {
    pub delete_asset: Option<DeleteAsset>,
}

#[derive(Debug)]
pub struct DeleteAsset {
    pub response_result: Option<ResponseStatus>,
}

/// The status of the mutation, where the answer holds it.
pub open spec fn spec_payload(data: Option<ResponseData>) -> Option<ResponseStatus> {
    match data {
        Some(ResponseData { assets: Some(Assets { delete_asset: Some(DeleteAsset { response_result: Some(response_result) }) }) }) => Some(response_result),
        _ => None,
    }
}

/// Tells whether the answer holds the status of the mutation.
pub fn has_payload(data: &Option<ResponseData>) -> (present: bool)
    ensures
        present == spec_payload(*data) is Some,
{
    match data {
        Some(ResponseData { assets: Some(Assets { delete_asset: Some(DeleteAsset { response_result: Some(_) }) }) }) => true,
        _ => false,
    }
}

/// Where the answer holds the status of the mutation: read off the path of fields that lead to
/// it; an absent field on the way means the answer does not hold it.
pub proof fn lemma_answer_read(data: ResponseData, assets: Assets, delete_asset: DeleteAsset, response_result: ResponseStatus)
    ensures
        spec_payload(None) is None,
        data.assets is None ==> spec_payload(Some(data)) is None,
        data.assets == Some(assets) && assets.delete_asset is None ==> spec_payload(Some(data)) is None,
        data.assets == Some(assets) && assets.delete_asset == Some(delete_asset) && delete_asset.response_result is None ==> spec_payload(Some(data)) is None,
        data.assets == Some(assets) && assets.delete_asset == Some(delete_asset) && delete_asset.response_result == Some(response_result) ==> spec_payload(Some(data)) == Some(response_result),
{
}

} // verus!
