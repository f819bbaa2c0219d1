//! The `AssetList` query.

use vstd::prelude::*;

use crate::common::Int;
use crate::asset::{AssetItem, AssetKind};

verus! {

pub struct AssetList;

pub const OPERATION_NAME: &'static str = "AssetList";

pub const QUERY: &'static str = "query AssetList($folderId: Int!, $kind: AssetKind!) {\n  assets {\n    list (folderId: $folderId, kind: $kind) {\n      id\n      filename\n      ext\n      kind\n      mime\n      fileSize\n      metadata\n      createdAt\n      updatedAt\n      folder {\n        id\n        slug\n        name\n      }\n      author {\n        id\n      }\n    }\n  }\n}\n";

#[derive(Debug)]
pub struct Variables {
    pub folder_id: Int,
    pub kind: AssetKind,
}

#[derive(Debug)]
pub struct ResponseData {
    pub assets: Option<Assets>,
}

#[derive(Debug)]
pub struct Assets {
    pub list: Option<Vec<Option<AssetItem>>>,
}

/// The listed items, where the answer holds them.
pub open spec fn spec_payload(data: Option<ResponseData>) -> Option<Vec<Option<AssetItem>>> {
    match data {
        Some(ResponseData { assets: Some(Assets { list: Some(list) }) }) => Some(list),
        _ => None,
    }
}

/// Tells whether the answer holds the listed items.
pub fn has_payload(data: &Option<ResponseData>) -> (present: bool)
    ensures
        present == spec_payload(*data) is Some,
{
    match data {
        Some(ResponseData { assets: Some(Assets { list: Some(_) }) }) => true,
        _ => false,
    }
}

/// Where the answer holds the listed items: read off the path of fields that lead to
/// it; an absent field on the way means the answer does not hold it.
pub proof fn lemma_answer_read(data: ResponseData, assets: Assets, list: Vec<Option<AssetItem>>)
    ensures
        spec_payload(None) is None,
        data.assets is None ==> spec_payload(Some(data)) is None,
        data.assets == Some(assets) && assets.list is None ==> spec_payload(Some(data)) is None,
        data.assets == Some(assets) && assets.list == Some(list) ==> spec_payload(Some(data)) == Some(list),
{
}

} // verus!
