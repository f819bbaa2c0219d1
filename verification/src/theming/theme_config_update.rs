//! The `ThemeConfigUpdate` mutation.

use vstd::prelude::*;

use crate::common::{Boolean, ResponseStatus};

verus! {

pub struct ThemeConfigUpdate;

pub const OPERATION_NAME: &'static str = "ThemeConfigUpdate";

pub const QUERY: &'static str = "mutation ThemeConfigUpdate (\n  $theme: String!\n  $iconset: String!\n  $darkMode: Boolean!\n  $tocPosition: String\n  $injectCSS: String\n  $injectHead: String\n  $injectBody: String\n) {\n  theming {\n    setConfig (\n      theme: $theme\n      iconset: $iconset\n      darkMode: $darkMode\n      tocPosition: $tocPosition\n      injectCSS: $injectCSS\n      injectHead: $injectHead\n      injectBody: $injectBody\n    ) {\n      responseResult {\n        succeeded\n        errorCode\n        slug\n        message\n      }\n    }\n  }\n}\n";

#[derive(Debug)]
pub struct Variables {
    pub theme: String,
    pub iconset: String,
    pub dark_mode: Boolean,
    pub toc_position: Option<String>,
    pub inject_css: Option<String>,
    pub inject_head: Option<String>,
    pub inject_body: Option<String>,
}

#[derive(Debug)]
pub struct ResponseData {
    pub theming: Option<Theming>,
}

#[derive(Debug)]
pub struct Theming {
    pub set_config: Option<SetConfig>,
}

#[derive(Debug)]
pub struct SetConfig {
    pub response_result: Option<ResponseStatus>,
}

/// The status of the mutation, where the answer holds it.
pub open spec fn spec_payload(data: Option<ResponseData>) -> Option<ResponseStatus> {
    match data {
        Some(ResponseData { theming: Some(Theming { set_config: Some(SetConfig { response_result: Some(response_result) }) }) }) => Some(response_result),
        _ => None,
    }
}

/// Tells whether the answer holds the status of the mutation.
pub fn has_payload(data: &Option<ResponseData>) -> (present: bool)
    ensures
        present == spec_payload(*data) is Some,
{
    match data {
        Some(ResponseData { theming: Some(Theming { set_config: Some(SetConfig { response_result: Some(_) }) }) }) => true,
        _ => false,
    }
}

/// Where the answer holds the status of the mutation: read off the path of fields that lead to
/// it; an absent field on the way means the answer does not hold it.
pub proof fn lemma_answer_read(data: ResponseData, theming: Theming, set_config: SetConfig, response_result: ResponseStatus)
    ensures
        spec_payload(None) is None,
        data.theming is None ==> spec_payload(Some(data)) is None,
        data.theming == Some(theming) && theming.set_config is None ==> spec_payload(Some(data)) is None,
        data.theming == Some(theming) && theming.set_config == Some(set_config) && set_config.response_result is None ==> spec_payload(Some(data)) is None,
        data.theming == Some(theming) && theming.set_config == Some(set_config) && set_config.response_result == Some(response_result) ==> spec_payload(Some(data)) == Some(response_result),
{
}

} // verus!
