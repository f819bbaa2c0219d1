//! The `GroupList` query.

use vstd::prelude::*;

use crate::group::GroupMinimal;

verus! {

pub struct GroupList;

pub const OPERATION_NAME: &'static str = "GroupList";

pub const QUERY: &'static str = "query GroupList($filter: String, $orderBy: String) {\n  groups {\n    list (filter: $filter, orderBy: $orderBy) {\n      id\n      name\n      isSystem\n      userCount\n      createdAt\n      updatedAt\n    }\n  }\n}\n";

#[derive(Debug)]
pub struct Variables {
    pub filter: Option<String>,
    pub order_by: Option<String>,
}

#[derive(Debug)]
pub struct ResponseData {
    pub groups: Option<Groups>,
}

#[derive(Debug)]
pub struct Groups {
    pub list: Option<Vec<Option<GroupMinimal>>>,
}

/// The listed items, where the answer holds them.
pub open spec fn spec_payload(data: Option<ResponseData>) -> Option<Vec<Option<GroupMinimal>>> {
    match data {
        Some(ResponseData { groups: Some(Groups { list: Some(list) }) }) => Some(list),
        _ => None,
    }
}

/// Tells whether the answer holds the listed items.
pub fn has_payload(data: &Option<ResponseData>) -> (present: bool)
    ensures
        present == spec_payload(*data) is Some,
{
    match data {
        Some(ResponseData { groups: Some(Groups { list: Some(_) }) }) => true,
        _ => false,
    }
}

/// Where the answer holds the listed items: read off the path of fields that lead to
/// it; an absent field on the way means the answer does not hold it.
pub proof fn lemma_answer_read(data: ResponseData, groups: Groups, list: Vec<Option<GroupMinimal>>)
    ensures
        spec_payload(None) is None,
        data.groups is None ==> spec_payload(Some(data)) is None,
        data.groups == Some(groups) && groups.list is None ==> spec_payload(Some(data)) is None,
        data.groups == Some(groups) && groups.list == Some(list) ==> spec_payload(Some(data)) == Some(list),
{
}

} // verus!
