//! The `NavigationTreeGet` query.

use vstd::prelude::*;

use crate::navigation::NavigationTree;

verus! {

pub struct NavigationTreeGet;

pub const OPERATION_NAME: &'static str = "NavigationTreeGet";

pub const QUERY: &'static str = "query NavigationTreeGet {\n  navigation {\n    tree {\n      locale\n      items {\n        id\n        kind\n        label\n        icon\n        targetType\n        target\n        visibilityMode\n        visibilityGroups\n      }\n    }\n  }\n}\n";

#[derive(Debug)]
pub struct Variables;

#[derive(Debug)]
pub struct ResponseData {
    pub navigation: Option<Navigation>,
}

#[derive(Debug)]
pub struct Navigation {
    pub tree: Vec<Option<NavigationTree>>,
}

/// The listed items, where the answer holds them.
pub open spec fn spec_payload(data: Option<ResponseData>) -> Option<Vec<Option<NavigationTree>>> {
    match data {
        Some(ResponseData { navigation: Some(Navigation { tree }) }) => Some(tree),
        _ => None,
    }
}

/// Tells whether the answer holds the listed items.
pub fn has_payload(data: &Option<ResponseData>) -> (present: bool)
    ensures
        present == spec_payload(*data) is Some,
{
    match data {
        Some(ResponseData { navigation: Some(Navigation { tree: _ }) }) => true,
        _ => false,
    }
}

/// Where the answer holds the listed items: read off the path of fields that lead to
/// it; an absent field on the way means the answer does not hold it.
pub proof fn lemma_answer_read(data: ResponseData, navigation: Navigation)
    ensures
        spec_payload(None) is None,
        data.navigation is None ==> spec_payload(Some(data)) is None,
        data.navigation == Some(navigation) ==> spec_payload(Some(data)) == Some(navigation.tree),
{
}

} // verus!
