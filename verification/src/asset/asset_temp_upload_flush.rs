//! The `AssetTempUploadFlush` mutation.

use vstd::prelude::*;

use crate::common::ResponseStatus;

verus! {

pub struct AssetTempUploadFlush;

pub const OPERATION_NAME: &'static str = "AssetTempUploadFlush";

pub const QUERY: &'static str = "mutation AssetTempUploadFlush {\n  assets {\n    flushTempUploads {\n      responseResult {\n        succeeded\n        errorCode\n        slug\n        message\n      }\n    }\n  }\n}\n";

#[derive(Debug)]
pub struct Variables;

#[derive(Debug)]
pub struct ResponseData {
    pub assets: Option<Assets>,
}

#[derive(Debug)]
pub struct Assets {
    pub flush_temp_uploads: Option<FlushTempUploads>,
}

#[derive(Debug)]
pub struct FlushTempUploads {
    pub response_result: Option<ResponseStatus>,
}

/// The status of the mutation, where the answer holds it.
pub open spec fn spec_payload(data: Option<ResponseData>) -> Option<ResponseStatus> {
    match data {
        Some(ResponseData { assets: Some(Assets { flush_temp_uploads: Some(FlushTempUploads { response_result: Some(response_result) }) }) }) => Some(response_result),
        _ => None,
    }
}

/// Tells whether the answer holds the status of the mutation.
pub fn has_payload(data: &Option<ResponseData>) -> (present: bool)
    ensures
        present == spec_payload(*data) is Some,
{
    match data {
        Some(ResponseData { assets: Some(Assets { flush_temp_uploads: Some(FlushTempUploads { response_result: Some(_) }) }) }) => true,
        _ => false,
    }
}

/// Where the answer holds the status of the mutation: read off the path of fields that lead to
/// it; an absent field on the way means the answer does not hold it.
pub proof fn lemma_answer_read(data: ResponseData, assets: Assets, flush_temp_uploads: FlushTempUploads, response_result: ResponseStatus)
    ensures
        spec_payload(None) is None,
        data.assets is None ==> spec_payload(Some(data)) is None,
        data.assets == Some(assets) && assets.flush_temp_uploads is None ==> spec_payload(Some(data)) is None,
        data.assets == Some(assets) && assets.flush_temp_uploads == Some(flush_temp_uploads) && flush_temp_uploads.response_result is None ==> spec_payload(Some(data)) is None,
        data.assets == Some(assets) && assets.flush_temp_uploads == Some(flush_temp_uploads) && flush_temp_uploads.response_result == Some(response_result) ==> spec_payload(Some(data)) == Some(response_result),
{
}

} // verus!
