//! The `NavigationConfigGet` query.

use vstd::prelude::*;

use crate::navigation::NavigationConfig;

verus! {

pub struct NavigationConfigGet;

pub const OPERATION_NAME: &'static str = "NavigationConfigGet";

pub const QUERY: &'static str = "query NavigationConfigGet {\n  navigation {\n    config {\n      mode\n    }\n  }\n}\n";

#[derive(Debug)]
pub struct Variables;

#[derive(Debug)]
pub struct ResponseData {
    pub navigation: Option<Navigation>,
}

#[derive(Debug)]
pub struct Navigation {
    pub config: NavigationConfig,
}

/// What the answer asks for, where the answer holds it.
pub open spec fn spec_payload(data: Option<ResponseData>) -> Option<NavigationConfig> {
    match data {
        Some(ResponseData { navigation: Some(Navigation { config }) }) => Some(config),
        _ => None,
    }
}

/// Tells whether the answer holds what the query asks for.
pub fn has_payload(data: &Option<ResponseData>) -> (present: bool)
    ensures
        present == spec_payload(*data) is Some,
{
    match data {
        Some(ResponseData { navigation: Some(Navigation { config: _ }) }) => true,
        _ => false,
    }
}

/// Where the answer holds what the query asks for: read off the path of fields that lead to
/// it; an absent field on the way means the answer does not hold it.
pub proof fn lemma_answer_read(data: ResponseData, navigation: Navigation)
    ensures
        spec_payload(None) is None,
        data.navigation is None ==> spec_payload(Some(data)) is None,
        data.navigation == Some(navigation) ==> spec_payload(Some(data)) == Some(navigation.config),
{
}

} // verus!
