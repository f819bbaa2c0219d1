//! The `SystemFlagList` query.

use vstd::prelude::*;

use crate::system::SystemFlag;

verus! {

pub struct SystemFlagList;

pub const OPERATION_NAME: &'static str = "SystemFlagList";

pub const QUERY: &'static str = "query SystemFlagList {\n  system {\n    flags {\n      key\n      value\n    }\n  }\n}\n";

#[derive(Debug)]
pub struct Variables;

#[derive(Debug)]
pub struct ResponseData {
    pub system: Option<System>,
}

#[derive(Debug)]
pub struct System {
    pub flags: Option<Vec<Option<SystemFlag>>>,
}

/// The listed items, where the answer holds them.
pub open spec fn spec_payload(data: Option<ResponseData>) -> Option<Vec<Option<SystemFlag>>> {
    match data {
        Some(ResponseData { system: Some(System { flags: Some(flags) }) }) => Some(flags),
        _ => None,
    }
}

/// Tells whether the answer holds the listed items.
pub fn has_payload(data: &Option<ResponseData>) -> (present: bool)
    ensures
        present == spec_payload(*data) is Some,
{
    match data {
        Some(ResponseData { system: Some(System { flags: Some(_) }) }) => true,
        _ => false,
    }
}

/// Where the answer holds the listed items: read off the path of fields that lead to
/// it; an absent field on the way means the answer does not hold it.
pub proof fn lemma_answer_read(data: ResponseData, system: System, flags: Vec<Option<SystemFlag>>)
    ensures
        spec_payload(None) is None,
        data.system is None ==> spec_payload(Some(data)) is None,
        data.system == Some(system) && system.flags is None ==> spec_payload(Some(data)) is None,
        data.system == Some(system) && system.flags == Some(flags) ==> spec_payload(Some(data)) == Some(flags),
{
}

} // verus!
