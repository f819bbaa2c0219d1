//! The `LocaleUpdate` mutation.

use vstd::prelude::*;

use crate::common::{Boolean, ResponseStatus};

verus! {

pub struct LocaleUpdate;

pub const OPERATION_NAME: &'static str = "LocaleUpdate";

pub const QUERY: &'static str = "mutation LocaleUpdate(\n  $locale: String!\n  $autoUpdate: Boolean!\n  $namespacing: Boolean!\n  $namespaces: [String]!\n) {\n  localization {\n    updateLocale(\n      locale: $locale\n      autoUpdate: $autoUpdate\n      namespacing: $namespacing\n      namespaces: $namespaces\n    ) {\n      responseResult {\n        succeeded\n        errorCode\n        slug\n        message\n      }\n    }\n  }\n}\n";

#[derive(Debug)]
pub struct Variables {
    pub locale: String,
    pub auto_update: Boolean,
    pub namespacing: Boolean,
    pub namespaces: Vec<Option<String>>,
}

#[derive(Debug)]
pub struct ResponseData {
    pub localization: Option<Localization>,
}

#[derive(Debug)]
pub struct Localization {
    pub update_locale: Option<UpdateLocale>,
}

#[derive(Debug)]
pub struct UpdateLocale {
    pub response_result: Option<ResponseStatus>,
}

/// The status of the mutation, where the answer holds it.
pub open spec fn spec_payload(data: Option<ResponseData>) -> Option<ResponseStatus> {
    match data {
        Some(ResponseData { localization: Some(Localization { update_locale: Some(UpdateLocale { response_result: Some(response_result) }) }) }) => Some(response_result),
        _ => None,
    }
}

/// Tells whether the answer holds the status of the mutation.
pub fn has_payload(data: &Option<ResponseData>) -> (present: bool)
    ensures
        present == spec_payload(*data) is Some,
{
    match data {
        Some(ResponseData { localization: Some(Localization { update_locale: Some(UpdateLocale { response_result: Some(_) }) }) }) => true,
        _ => false,
    }
}

/// Where the answer holds the status of the mutation: read off the path of fields that lead to
/// it; an absent field on the way means the answer does not hold it.
pub proof fn lemma_answer_read(data: ResponseData, localization: Localization, update_locale: UpdateLocale, response_result: ResponseStatus)
    ensures
        spec_payload(None) is None,
        data.localization is None ==> spec_payload(Some(data)) is None,
        data.localization == Some(localization) && localization.update_locale is None ==> spec_payload(Some(data)) is None,
        data.localization == Some(localization) && localization.update_locale == Some(update_locale) && update_locale.response_result is None ==> spec_payload(Some(data)) is None,
        data.localization == Some(localization) && localization.update_locale == Some(update_locale) && update_locale.response_result == Some(response_result) ==> spec_payload(Some(data)) == Some(response_result),
{
}

} // verus!
