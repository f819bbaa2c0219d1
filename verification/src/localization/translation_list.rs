//! The `TranslationList` query.

use vstd::prelude::*;

use crate::localization::Translation;

verus! {

pub struct TranslationList;

pub const OPERATION_NAME: &'static str = "TranslationList";

pub const QUERY: &'static str = "query TranslationList(\n  $locale: String!\n  $namespace: String!\n) {\n  localization {\n    translations(\n      locale: $locale\n      namespace: $namespace\n    ) {\n      key\n      value\n    }\n  }\n}\n";

#[derive(Debug)]
pub struct Variables {
    pub locale: String,
    pub namespace: String,
}

#[derive(Debug)]
pub struct ResponseData {
    pub localization: Option<Localization>,
}

#[derive(Debug)]
pub struct Localization {
    pub translations: Option<Vec<Option<Translation>>>,
}

/// The listed items, where the answer holds them.
pub open spec fn spec_payload(data: Option<ResponseData>) -> Option<Vec<Option<Translation>>> {
    match data {
        Some(ResponseData { localization: Some(Localization { translations: Some(translations) }) }) => Some(translations),
        _ => None,
    }
}

/// Tells whether the answer holds the listed items.
pub fn has_payload(data: &Option<ResponseData>) -> (present: bool)
    ensures
        present == spec_payload(*data) is Some,
{
    match data {
        Some(ResponseData { localization: Some(Localization { translations: Some(_) }) }) => true,
        _ => false,
    }
}

/// Where the answer holds the listed items: read off the path of fields that lead to
/// it; an absent field on the way means the answer does not hold it.
pub proof fn lemma_answer_read(data: ResponseData, localization: Localization, translations: Vec<Option<Translation>>)
    ensures
        spec_payload(None) is None,
        data.localization is None ==> spec_payload(Some(data)) is None,
        data.localization == Some(localization) && localization.translations is None ==> spec_payload(Some(data)) is None,
        data.localization == Some(localization) && localization.translations == Some(translations) ==> spec_payload(Some(data)) == Some(translations),
{
}

} // verus!
