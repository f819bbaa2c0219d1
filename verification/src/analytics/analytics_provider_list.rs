//! The `AnalyticsProviderList` query.

use vstd::prelude::*;

use crate::analytics::AnalyticsProvider;

verus! {

pub struct AnalyticsProviderList;

pub const OPERATION_NAME: &'static str = "AnalyticsProviderList";

pub const QUERY: &'static str = "query AnalyticsProviderList {\n  analytics {\n    providers {\n      isEnabled\n      key\n      props\n      title\n      description\n      isAvailable\n      logo\n      website\n      config {\n        key,\n        value\n      }\n    }\n  }\n}\n";

#[derive(Debug)]
pub struct Variables;

#[derive(Debug)]
pub struct ResponseData {
    pub analytics: Option<Analytics>,
}

#[derive(Debug)]
pub struct Analytics {
    pub providers: Option<Vec<Option<AnalyticsProvider>>>,
}

/// The listed items, where the answer holds them.
pub open spec fn spec_payload(data: Option<ResponseData>) -> Option<Vec<Option<AnalyticsProvider>>> {
    match data {
        Some(ResponseData { analytics: Some(Analytics { providers: Some(providers) }) }) => Some(providers),
        _ => None,
    }
}

/// Tells whether the answer holds the listed items.
pub fn has_payload(data: &Option<ResponseData>) -> (present: bool)
    ensures
        present == spec_payload(*data) is Some,
{
    match data {
        Some(ResponseData { analytics: Some(Analytics { providers: Some(_) }) }) => true,
        _ => false,
    }
}

/// Where the answer holds the listed items: read off the path of fields that lead to
/// it; an absent field on the way means the answer does not hold it.
pub proof fn lemma_answer_read(data: ResponseData, analytics: Analytics, providers: Vec<Option<AnalyticsProvider>>)
    ensures
        spec_payload(None) is None,
        data.analytics is None ==> spec_payload(Some(data)) is None,
        data.analytics == Some(analytics) && analytics.providers is None ==> spec_payload(Some(data)) is None,
        data.analytics == Some(analytics) && analytics.providers == Some(providers) ==> spec_payload(Some(data)) == Some(providers),
{
}

} // verus!
