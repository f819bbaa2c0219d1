//! The `SiteConfigGet` query.

use vstd::prelude::*;

use crate::site::SiteConfig;

verus! {

pub struct SiteConfigGet;

pub const OPERATION_NAME: &'static str = "SiteConfigGet";

pub const QUERY: &'static str = "query SiteConfigGet {\n  site {\n    config {\n      host\n      title\n      description\n      robots\n      analyticsService\n      analyticsId\n      company\n      contentLicense\n      footerOverride\n      logoUrl\n      pageExtensions\n      authAutoLogin\n      authEnforce2FA\n      authHideLocal\n      authLoginBgUrl\n      authJwtAudience\n      authJwtExpiration\n      authJwtRenewablePeriod\n      editFab\n      editMenuBar\n      editMenuBtn\n      editMenuExternalBtn\n      editMenuExternalName\n      editMenuExternalIcon\n      editMenuExternalUrl\n      featurePageRatings\n      featurePageComments\n      featurePersonalWikis\n      securityOpenRedirect\n      securityIframe\n      securityReferrerPolicy\n      securityTrustProxy\n      securitySRI\n      securityHSTS\n      securityHSTSDuration\n      securityCSP\n      securityCSPDirectives\n      uploadMaxFileSize\n      uploadMaxFiles\n      uploadScanSVG\n      uploadForceDownload\n    }\n  }\n}\n";

#[derive(Debug)]
pub struct Variables;

#[derive(Debug)]
pub struct ResponseData {
    pub site: Option<Site>,
}

#[derive(Debug)]
pub struct Site {
    pub config: Option<SiteConfig>,
}

/// What the answer asks for, where the answer holds it.
pub open spec fn spec_payload(data: Option<ResponseData>) -> Option<SiteConfig> {
    match data {
        Some(ResponseData { site: Some(Site { config: Some(config) }) }) => Some(config),
        _ => None,
    }
}

/// Tells whether the answer holds what the query asks for.
pub fn has_payload(data: &Option<ResponseData>) -> (present: bool)
    ensures
        present == spec_payload(*data) is Some,
{
    match data {
        Some(ResponseData { site: Some(Site { config: Some(_) }) }) => true,
        _ => false,
    }
}

/// Where the answer holds what the query asks for: read off the path of fields that lead to
/// it; an absent field on the way means the answer does not hold it.
pub proof fn lemma_answer_read(data: ResponseData, site: Site, config: SiteConfig)
    ensures
        spec_payload(None) is None,
        data.site is None ==> spec_payload(Some(data)) is None,
        data.site == Some(site) && site.config is None ==> spec_payload(Some(data)) is None,
        data.site == Some(site) && site.config == Some(config) ==> spec_payload(Some(data)) == Some(config),
{
}

} // verus!
