//! The `LocaleList` query.

use vstd::prelude::*;

use crate::localization::Locale;

verus! {

pub struct LocaleList;

pub const OPERATION_NAME: &'static str = "LocaleList";

pub const QUERY: &'static str = "query LocaleList {\n  localization {\n    locales {\n      availability\n      code\n      createdAt\n      installDate\n      isInstalled\n      isRTL\n      name\n      nativeName\n      updatedAt\n    }\n  }\n}\n";

#[derive(Debug)]
pub struct Variables;

#[derive(Debug)]
pub struct ResponseData {
    pub localization: Option<Localization>,
}

#[derive(Debug)]
pub struct Localization {
    pub locales: Option<Vec<Option<Locale>>>,
}

/// The listed items, where the answer holds them.
pub open spec fn spec_payload(data: Option<ResponseData>) -> Option<Vec<Option<Locale>>> {
    match data {
        Some(ResponseData { localization: Some(Localization { locales: Some(locales) }) }) => Some(locales),
        _ => None,
    }
}

/// Tells whether the answer holds the listed items.
pub fn has_payload(data: &Option<ResponseData>) -> (present: bool)
    ensures
        present == spec_payload(*data) is Some,
{
    match data {
        Some(ResponseData { localization: Some(Localization { locales: Some(_) }) }) => true,
        _ => false,
    }
}

/// Where the answer holds the listed items: read off the path of fields that lead to
/// it; an absent field on the way means the answer does not hold it.
pub proof fn lemma_answer_read(data: ResponseData, localization: Localization, locales: Vec<Option<Locale>>)
    ensures
        spec_payload(None) is None,
        data.localization is None ==> spec_payload(Some(data)) is None,
        data.localization == Some(localization) && localization.locales is None ==> spec_payload(Some(data)) is None,
        data.localization == Some(localization) && localization.locales == Some(locales) ==> spec_payload(Some(data)) == Some(locales),
{
}

} // verus!
