//! The `PageMigrateToLocale` mutation.

use vstd::prelude::*;

use crate::common::ResponseStatus;

verus! {

pub struct PageMigrateToLocale;

pub const OPERATION_NAME: &'static str = "PageMigrateToLocale";

pub const QUERY: &'static str = "mutation PageMigrateToLocale(\n  $sourceLocale: String!\n  $targetLocale: String!\n) {\n  pages {\n    migrateToLocale(\n      sourceLocale: $sourceLocale\n      targetLocale: $targetLocale\n    ) {\n      responseResult {\n        succeeded\n        errorCode\n        slug\n        message\n      }\n    }\n  }\n}\n";

#[derive(Debug)]
pub struct Variables {
    pub source_locale: String,
    pub target_locale: String,
}

#[derive(Debug)]
pub struct ResponseData {
    pub pages: Option<Pages>,
}

#[derive(Debug)]
pub struct Pages {
    pub migrate_to_locale: Option<MigrateToLocale>,
}

#[derive(Debug)]
pub struct MigrateToLocale {
    pub response_result: ResponseStatus,
}

/// The status of the mutation, where the answer holds it.
pub open spec fn spec_payload(data: Option<ResponseData>) -> Option<ResponseStatus> {
    match data {
        Some(ResponseData { pages: Some(Pages { migrate_to_locale: Some(MigrateToLocale { response_result: status }) }) }) => Some(status),
        _ => None,
    }
}

/// Tells whether the answer holds the status of the mutation.
pub fn has_payload(data: &Option<ResponseData>) -> (present: bool)
    ensures
        present == spec_payload(*data) is Some,
{
    match data {
        Some(ResponseData { pages: Some(Pages { migrate_to_locale: Some(MigrateToLocale { response_result: _ }) }) }) => true,
        _ => false,
    }
}

/// Where the answer holds the status of the mutation: read off the path of fields that lead to
/// it; an absent field on the way means the answer does not hold it.
pub proof fn lemma_answer_read(data: ResponseData, pages: Pages, migrate_to_locale: MigrateToLocale)
    ensures
        spec_payload(None) is None,
        data.pages is None ==> spec_payload(Some(data)) is None,
        data.pages == Some(pages) && pages.migrate_to_locale is None ==> spec_payload(Some(data)) is None,
        data.pages == Some(pages) && pages.migrate_to_locale == Some(migrate_to_locale) ==> spec_payload(Some(data)) == Some(migrate_to_locale.response_result),
{
}

} // verus!
