//! The `SystemExtensionList` query.

use vstd::prelude::*;

use crate::system::SystemExtension;

verus! {

pub struct SystemExtensionList;

pub const OPERATION_NAME: &'static str = "SystemExtensionList";

pub const QUERY: &'static str = "query SystemExtensionList {\n  system {\n    extensions {\n      key\n      title\n      description\n      isInstalled\n      isCompatible\n    }\n  }\n}\n";

#[derive(Debug)]
pub struct Variables;

#[derive(Debug)]
pub struct ResponseData {
    pub system: Option<System>,
}

#[derive(Debug)]
pub struct System {
    pub extensions: Option<Vec<Option<SystemExtension>>>,
}

/// The listed items, where the answer holds them.
pub open spec fn spec_payload(data: Option<ResponseData>) -> Option<Vec<Option<SystemExtension>>> {
    match data {
        Some(ResponseData { system: Some(System { extensions: Some(extensions) }) }) => Some(extensions),
        _ => None,
    }
}

/// Tells whether the answer holds the listed items.
pub fn has_payload(data: &Option<ResponseData>) -> (present: bool)
    ensures
        present == spec_payload(*data) is Some,
{
    match data {
        Some(ResponseData { system: Some(System { extensions: Some(_) }) }) => true,
        _ => false,
    }
}

/// Where the answer holds the listed items: read off the path of fields that lead to
/// it; an absent field on the way means the answer does not hold it.
pub proof fn lemma_answer_read(data: ResponseData, system: System, extensions: Vec<Option<SystemExtension>>)
    ensures
        spec_payload(None) is None,
        data.system is None ==> spec_payload(Some(data)) is None,
        data.system == Some(system) && system.extensions is None ==> spec_payload(Some(data)) is None,
        data.system == Some(system) && system.extensions == Some(extensions) ==> spec_payload(Some(data)) == Some(extensions),
{
}

} // verus!
