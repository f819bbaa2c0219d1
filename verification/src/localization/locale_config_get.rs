//! The `LocaleConfigGet` query.

use vstd::prelude::*;

use crate::localization::LocaleConfig;

verus! {

pub struct LocaleConfigGet;

pub const OPERATION_NAME: &'static str = "LocaleConfigGet";

pub const QUERY: &'static str = "query LocaleConfigGet {\n  localization {\n    config {\n      locale\n      autoUpdate\n      namespacing\n      namespaces\n    }\n  }\n}\n";

#[derive(Debug)]
pub struct Variables;

#[derive(Debug)]
pub struct ResponseData {
    pub localization: Option<Localization>,
}

#[derive(Debug)]
pub struct Localization {
    pub config: Option<LocaleConfig>,
}

/// What the answer asks for, where the answer holds it.
pub open spec fn spec_payload(data: Option<ResponseData>) -> Option<LocaleConfig> {
    match data {
        Some(ResponseData { localization: Some(Localization { config: Some(config) }) }) => Some(config),
        _ => None,
    }
}

/// Tells whether the answer holds what the query asks for.
pub fn has_payload(data: &Option<ResponseData>) -> (present: bool)
    ensures
        present == spec_payload(*data) is Some,
{
    match data {
        Some(ResponseData { localization: Some(Localization { config: Some(_) }) }) => true,
        _ => false,
    }
}

/// Where the answer holds what the query asks for: read off the path of fields that lead to
/// it; an absent field on the way means the answer does not hold it.
pub proof fn lemma_answer_read(data: ResponseData, localization: Localization, config: LocaleConfig)
    ensures
        spec_payload(None) is None,
        data.localization is None ==> spec_payload(Some(data)) is None,
        data.localization == Some(localization) && localization.config is None ==> spec_payload(Some(data)) is None,
        data.localization == Some(localization) && localization.config == Some(config) ==> spec_payload(Some(data)) == Some(config),
{
}

} // verus!
