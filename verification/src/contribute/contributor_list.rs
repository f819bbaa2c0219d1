//! The `ContributorList` query.

use vstd::prelude::*;

use crate::contribute::Contributor;

verus! {

pub struct ContributorList;

pub const OPERATION_NAME: &'static str = "ContributorList";

pub const QUERY: &'static str = "query ContributorList {\n  contribute {\n    contributors {\n      id\n      source\n      name\n      joined\n      website\n      twitter\n      avatar\n    }\n  }\n}\n";

#[derive(Debug)]
pub struct Variables;

#[derive(Debug)]
pub struct ResponseData {
    pub contribute: Option<Contribute>,
}

#[derive(Debug)]
pub struct Contribute {
    pub contributors: Option<Vec<Option<Contributor>>>,
}

/// The listed items, where the answer holds them.
pub open spec fn spec_payload(data: Option<ResponseData>) -> Option<Option<Vec<Option<Contributor>>>> {
    match data {
        Some(ResponseData { contribute: Some(Contribute { contributors }) }) => Some(contributors),
        _ => None,
    }
}

/// Tells whether the answer holds the listed items.
pub fn has_payload(data: &Option<ResponseData>) -> (present: bool)
    ensures
        present == spec_payload(*data) is Some,
{
    match data {
        Some(ResponseData { contribute: Some(Contribute { contributors: _ }) }) => true,
        _ => false,
    }
}

/// Where the answer holds the listed items: read off the path of fields that lead to
/// it; an absent field on the way means the answer does not hold it.
pub proof fn lemma_answer_read(data: ResponseData, contribute: Contribute)
    ensures
        spec_payload(None) is None,
        data.contribute is None ==> spec_payload(Some(data)) is None,
        data.contribute == Some(contribute) ==> spec_payload(Some(data)) == Some(contribute.contributors),
{
}

} // verus!
