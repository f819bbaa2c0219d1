//! The `LocaleDownload` mutation.

use vstd::prelude::*;

use crate::common::ResponseStatus;

verus! {

pub struct LocaleDownload;

pub const OPERATION_NAME: &'static str = "LocaleDownload";

pub const QUERY: &'static str = "mutation LocaleDownload(\n  $locale: String!\n) {\n  localization {\n    downloadLocale(\n      locale: $locale\n    ) {\n      responseResult {\n        succeeded\n        errorCode\n        slug\n        message\n      }\n    }\n  }\n}\n";

#[derive(Debug)]
pub struct Variables {
    pub locale: String,
}

#[derive(Debug)]
pub struct ResponseData {
    pub localization: Option<Localization>,
}

#[derive(Debug)]
pub struct Localization {
    pub download_locale: Option<DownloadLocale>,
}

#[derive(Debug)]
pub struct DownloadLocale {
    pub response_result: Option<ResponseStatus>,
}

/// The status of the mutation, where the answer holds it.
pub open spec fn spec_payload(data: Option<ResponseData>) -> Option<ResponseStatus> {
    match data {
        Some(ResponseData { localization: Some(Localization { download_locale: Some(DownloadLocale { response_result: Some(response_result) }) }) }) => Some(response_result),
        _ => None,
    }
}

/// Tells whether the answer holds the status of the mutation.
pub fn has_payload(data: &Option<ResponseData>) -> (present: bool)
    ensures
        present == spec_payload(*data) is Some,
{
    match data {
        Some(ResponseData { localization: Some(Localization { download_locale: Some(DownloadLocale { response_result: Some(_) }) }) }) => true,
        _ => false,
    }
}

/// Where the answer holds the status of the mutation: read off the path of fields that lead to
/// it; an absent field on the way means the answer does not hold it.
pub proof fn lemma_answer_read(data: ResponseData, localization: Localization, download_locale: DownloadLocale, response_result: ResponseStatus)
    ensures
        spec_payload(None) is None,
        data.localization is None ==> spec_payload(Some(data)) is None,
        data.localization == Some(localization) && localization.download_locale is None ==> spec_payload(Some(data)) is None,
        data.localization == Some(localization) && localization.download_locale == Some(download_locale) && download_locale.response_result is None ==> spec_payload(Some(data)) is None,
        data.localization == Some(localization) && localization.download_locale == Some(download_locale) && download_locale.response_result == Some(response_result) ==> spec_payload(Some(data)) == Some(response_result),
{
}

} // verus!
