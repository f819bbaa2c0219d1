//! The `NavigationConfigUpdate` mutation.

use vstd::prelude::*;

use crate::common::ResponseStatus;
use crate::navigation::NavigationMode;

verus! {

pub struct NavigationConfigUpdate;

pub const OPERATION_NAME: &'static str = "NavigationConfigUpdate";

pub const QUERY: &'static str = "mutation NavigationConfigUpdate (\n  $mode: NavigationMode!\n) { \n  navigation {\n    updateConfig(mode: $mode) {\n      responseResult {\n        succeeded\n        errorCode\n        slug\n        message\n      }\n    }\n  }\n}\n";

#[derive(Debug)]
pub struct Variables {
    pub mode: NavigationMode,
}

#[derive(Debug)]
pub struct ResponseData {
    pub navigation: Option<Navigation>,
}

#[derive(Debug)]
pub struct Navigation {
    pub update_config: Option<UpdateConfig>,
}

#[derive(Debug)]
pub struct UpdateConfig {
    pub response_result: Option<ResponseStatus>,
}

/// The status of the mutation, where the answer holds it.
pub open spec fn spec_payload(data: Option<ResponseData>) -> Option<ResponseStatus> {
    match data {
        Some(ResponseData { navigation: Some(Navigation { update_config: Some(UpdateConfig { response_result: Some(response_result) }) }) }) => Some(response_result),
        _ => None,
    }
}

/// Tells whether the answer holds the status of the mutation.
pub fn has_payload(data: &Option<ResponseData>) -> (present: bool)
    ensures
        present == spec_payload(*data) is Some,
{
    match data {
        Some(ResponseData { navigation: Some(Navigation { update_config: Some(UpdateConfig { response_result: Some(_) }) }) }) => true,
        _ => false,
    }
}

/// Where the answer holds the status of the mutation: read off the path of fields that lead to
/// it; an absent field on the way means the answer does not hold it.
pub proof fn lemma_answer_read(data: ResponseData, navigation: Navigation, update_config: UpdateConfig, response_result: ResponseStatus)
    ensures
        spec_payload(None) is None,
        data.navigation is None ==> spec_payload(Some(data)) is None,
        data.navigation == Some(navigation) && navigation.update_config is None ==> spec_payload(Some(data)) is None,
        data.navigation == Some(navigation) && navigation.update_config == Some(update_config) && update_config.response_result is None ==> spec_payload(Some(data)) is None,
        data.navigation == Some(navigation) && navigation.update_config == Some(update_config) && update_config.response_result == Some(response_result) ==> spec_payload(Some(data)) == Some(response_result),
{
}

} // verus!
