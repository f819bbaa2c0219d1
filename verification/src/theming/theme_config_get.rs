//! The `ThemeConfigGet` query.

use vstd::prelude::*;

use crate::theming::ThemingConfig;

verus! {

pub struct ThemeConfigGet;

pub const OPERATION_NAME: &'static str = "ThemeConfigGet";

pub const QUERY: &'static str = "query ThemeConfigGet {\n  theming {\n    config {\n      theme\n      iconset\n      darkMode\n      tocPosition\n      injectCSS\n      injectHead\n      injectBody\n    }\n  }\n}\n";

#[derive(Debug)]
pub struct Variables;

#[derive(Debug)]
pub struct ResponseData {
    pub theming: Option<Theming>,
}

#[derive(Debug)]
pub struct Theming {
    pub config: Option<ThemingConfig>,
}

/// What the answer asks for, where the answer holds it.
pub open spec fn spec_payload(data: Option<ResponseData>) -> Option<ThemingConfig> {
    match data {
        Some(ResponseData { theming: Some(Theming { config: Some(config) }) }) => Some(config),
        _ => None,
    }
}

/// Tells whether the answer holds what the query asks for.
pub fn has_payload(data: &Option<ResponseData>) -> (present: bool)
    ensures
        present == spec_payload(*data) is Some,
{
    match data {
        Some(ResponseData { theming: Some(Theming { config: Some(_) }) }) => true,
        _ => false,
    }
}

/// Where the answer holds what the query asks for: read off the path of fields that lead to
/// it; an absent field on the way means the answer does not hold it.
pub proof fn lemma_answer_read(data: ResponseData, theming: Theming, config: ThemingConfig)
    ensures
        spec_payload(None) is None,
        data.theming is None ==> spec_payload(Some(data)) is None,
        data.theming == Some(theming) && theming.config is None ==> spec_payload(Some(data)) is None,
        data.theming == Some(theming) && theming.config == Some(config) ==> spec_payload(Some(data)) == Some(config),
{
}

} // verus!
