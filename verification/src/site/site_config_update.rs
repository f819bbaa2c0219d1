//! The `SiteConfigUpdate` mutation.

use vstd::prelude::*;

use crate::common::{Boolean, Int, ResponseStatus};

verus! {

pub struct SiteConfigUpdate;

pub const OPERATION_NAME: &'static str = "SiteConfigUpdate";

pub const QUERY: &'static str = "mutation SiteConfigUpdate(\n  $host: String\n  $title: String\n  $description: String\n  $robots: [String]\n  $analyticsService: String\n  $analyticsId: String\n  $company: String\n  $contentLicense: String\n  $footerOverride: String\n  $logoUrl: String\n  $pageExtensions: String\n  $authAutoLogin: Boolean\n  $authEnforce2FA: Boolean\n  $authHideLocal: Boolean\n  $authLoginBgUrl: String\n  $authJwtAudience: String\n  $authJwtExpiration: String\n  $authJwtRenewablePeriod: String\n  $editFab: Boolean\n  $editMenuBar: Boolean\n  $editMenuBtn: Boolean\n  $editMenuExternalBtn: Boolean\n  $editMenuExternalName: String\n  $editMenuExternalIcon: String\n  $editMenuExternalUrl: String\n  $featurePageRatings: Boolean\n  $featurePageComments: Boolean\n  $featurePersonalWikis: Boolean\n  $securityOpenRedirect: Boolean\n  $securityIframe: Boolean\n  $securityReferrerPolicy: Boolean\n  $securityTrustProxy: Boolean\n  $securitySRI: Boolean\n  $securityHSTS: Boolean\n  $securityHSTSDuration: Int\n  $securityCSP: Boolean\n  $securityCSPDirectives: String\n  $uploadMaxFileSize: Int\n  $uploadMaxFiles: Int\n  $uploadScanSVG: Boolean\n  $uploadForceDownload: Boolean\n) {\n  site {\n    updateConfig(\n      host: $host\n      title: $title\n      description: $description\n      robots: $robots\n      analyticsService: $analyticsService\n      analyticsId: $analyticsId\n      company: $company\n      contentLicense: $contentLicense\n      footerOverride: $footerOverride\n      logoUrl: $logoUrl\n      pageExtensions: $pageExtensions\n      authAutoLogin: $authAutoLogin\n      authEnforce2FA: $authEnforce2FA\n      authHideLocal: $authHideLocal\n      authLoginBgUrl: $authLoginBgUrl\n      authJwtAudience: $authJwtAudience\n      authJwtExpiration: $authJwtExpiration\n      authJwtRenewablePeriod: $authJwtRenewablePeriod\n      editFab: $editFab\n      editMenuBar: $editMenuBar\n      editMenuBtn: $editMenuBtn\n      editMenuExternalBtn: $editMenuExternalBtn\n      editMenuExternalName: $editMenuExternalName\n      editMenuExternalIcon: $editMenuExternalIcon\n      editMenuExternalUrl: $editMenuExternalUrl\n      featurePageRatings: $featurePageRatings\n      featurePageComments: $featurePageComments\n      featurePersonalWikis: $featurePersonalWikis\n      securityOpenRedirect: $securityOpenRedirect\n      securityIframe: $securityIframe\n      securityReferrerPolicy: $securityReferrerPolicy\n      securityTrustProxy: $securityTrustProxy\n      securitySRI: $securitySRI\n      securityHSTS: $securityHSTS\n      securityHSTSDuration: $securityHSTSDuration\n      securityCSP: $securityCSP\n      securityCSPDirectives: $securityCSPDirectives\n      uploadMaxFileSize: $uploadMaxFileSize\n      uploadMaxFiles: $uploadMaxFiles\n      uploadScanSVG: $uploadScanSVG\n      uploadForceDownload: $uploadForceDownload\n    ) {\n      responseResult {\n        succeeded\n        errorCode\n        slug\n        message\n      }\n    }\n  }\n}\n";

#[derive(Debug)]
pub struct ResponseData {
    pub site: Option<Site>,
}

#[derive(Debug)]
pub struct Site {
    pub update_config: Option<UpdateConfig>,
}

#[derive(Debug)]
pub struct UpdateConfig {
    pub response_result: Option<ResponseStatus>,
}

/// The status of the mutation, where the answer holds it.
pub open spec fn spec_payload(data: Option<ResponseData>) -> Option<ResponseStatus> {
    match data {
        Some(ResponseData { site: Some(Site { update_config: Some(UpdateConfig { response_result: Some(response_result) }) }) }) => Some(response_result),
        _ => None,
    }
}

/// Tells whether the answer holds the status of the mutation.
pub fn has_payload(data: &Option<ResponseData>) -> (present: bool)
    ensures
        present == spec_payload(*data) is Some,
{
    match data {
        Some(ResponseData { site: Some(Site { update_config: Some(UpdateConfig { response_result: Some(_) }) }) }) => true,
        _ => false,
    }
}

/// Where the answer holds the status of the mutation: read off the path of fields that lead to
/// it; an absent field on the way means the answer does not hold it.
pub proof fn lemma_answer_read(data: ResponseData, site: Site, update_config: UpdateConfig, response_result: ResponseStatus)
    ensures
        spec_payload(None) is None,
        data.site is None ==> spec_payload(Some(data)) is None,
        data.site == Some(site) && site.update_config is None ==> spec_payload(Some(data)) is None,
        data.site == Some(site) && site.update_config == Some(update_config) && update_config.response_result is None ==> spec_payload(Some(data)) is None,
        data.site == Some(site) && site.update_config == Some(update_config) && update_config.response_result == Some(response_result) ==> spec_payload(Some(data)) == Some(response_result),
{
}

} // verus!
