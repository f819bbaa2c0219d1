//! The `AssetFolderList` query.

use vstd::prelude::*;

use crate::common::Int;
use crate::asset::AssetFolder;

verus! {

pub struct AssetFolderList;

pub const OPERATION_NAME: &'static str = "AssetFolderList";

pub const QUERY: &'static str = "query AssetFolderList($parentFolderId: Int!) {\n  assets {\n    folders (parentFolderId: $parentFolderId) {\n      id\n      slug\n      name\n    }\n  }\n}\n";

#[derive(Debug)]
pub struct Variables {
    pub parent_folder_id: Int,
}

#[derive(Debug)]
pub struct ResponseData {
    pub assets: Option<Assets>,
}

#[derive(Debug)]
pub struct Assets {
    pub folders: Option<Vec<Option<AssetFolder>>>,
}

/// The listed items, where the answer holds them.
pub open spec fn spec_payload(data: Option<ResponseData>) -> Option<Vec<Option<AssetFolder>>> {
    match data {
        Some(ResponseData { assets: Some(Assets { folders: Some(folders) }) }) => Some(folders),
        _ => None,
    }
}

/// Tells whether the answer holds the listed items.
pub fn has_payload(data: &Option<ResponseData>) -> (present: bool)
    ensures
        present == spec_payload(*data) is Some,
{
    match data {
        Some(ResponseData { assets: Some(Assets { folders: Some(_) }) }) => true,
        _ => false,
    }
}

/// Where the answer holds the listed items: read off the path of fields that lead to
/// it; an absent field on the way means the answer does not hold it.
pub proof fn lemma_answer_read(data: ResponseData, assets: Assets, folders: Vec<Option<AssetFolder>>)
    ensures
        spec_payload(None) is None,
        data.assets is None ==> spec_payload(Some(data)) is None,
        data.assets == Some(assets) && assets.folders is None ==> spec_payload(Some(data)) is None,
        data.assets == Some(assets) && assets.folders == Some(folders) ==> spec_payload(Some(data)) == Some(folders),
{
}

} // verus!
