//! The `ThemeList` query.

use vstd::prelude::*;

use crate::theming::Theme;

verus! {

pub struct ThemeList;

pub const OPERATION_NAME: &'static str = "ThemeList";

pub const QUERY: &'static str = "query ThemeList {\n  theming {\n    themes {\n      key\n      title\n      author\n    }\n  }\n}\n";

#[derive(Debug)]
pub struct Variables;

#[derive(Debug)]
pub struct ResponseData {
    pub theming: Option<Theming>,
}

#[derive(Debug)]
pub struct Theming {
    pub themes: Option<Vec<Option<Theme>>>,
}

/// The listed items, where the answer holds them.
pub open spec fn spec_payload(data: Option<ResponseData>) -> Option<Vec<Option<Theme>>> {
    match data {
        Some(ResponseData { theming: Some(Theming { themes: Some(themes) }) }) => Some(themes),
        _ => None,
    }
}

/// Tells whether the answer holds the listed items.
pub fn has_payload(data: &Option<ResponseData>) -> (present: bool)
    ensures
        present == spec_payload(*data) is Some,
{
    match data {
        Some(ResponseData { theming: Some(Theming { themes: Some(_) }) }) => true,
        _ => false,
    }
}

/// Where the answer holds the listed items: read off the path of fields that lead to
/// it; an absent field on the way means the answer does not hold it.
pub proof fn lemma_answer_read(data: ResponseData, theming: Theming, themes: Vec<Option<Theme>>)
    ensures
        spec_payload(None) is None,
        data.theming is None ==> spec_payload(Some(data)) is None,
        data.theming == Some(theming) && theming.themes is None ==> spec_payload(Some(data)) is None,
        data.theming == Some(theming) && theming.themes == Some(themes) ==> spec_payload(Some(data)) == Some(themes),
{
}

} // verus!
