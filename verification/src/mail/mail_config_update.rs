//! The `MailConfigUpdate` mutation.

use vstd::prelude::*;

use crate::common::{Boolean, Int, ResponseStatus};

verus! {

pub struct MailConfigUpdate;

pub const OPERATION_NAME: &'static str = "MailConfigUpdate";

pub const QUERY: &'static str = "mutation MailConfigUpdate(\n  $senderName: String!\n  $senderEmail: String!\n  $host: String!\n  $port: Int!\n  $name: String!\n  $secure: Boolean!\n  $verifySSL: Boolean!\n  $user: String!\n  $pass: String!\n  $useDKIM: Boolean!\n  $dkimDomainName: String!\n  $dkimKeySelector: String!\n  $dkimPrivateKey: String!\n) {\n  mail {\n    updateConfig(\n      senderName: $senderName\n      senderEmail: $senderEmail\n      host: $host\n      port: $port\n      name: $name\n      secure: $secure\n      verifySSL: $verifySSL\n      user: $user\n      pass: $pass\n      useDKIM: $useDKIM\n      dkimDomainName: $dkimDomainName\n      dkimKeySelector: $dkimKeySelector\n      dkimPrivateKey: $dkimPrivateKey\n    ) {\n      responseResult {\n        succeeded\n        errorCode\n        slug\n        message\n      }\n    }\n  }\n}\n";

#[derive(Debug)]
pub struct Variables {
    pub sender_name: String,
    pub sender_email: String,
    pub host: String,
    pub port: Int,
    pub name: String,
    pub secure: Boolean,
    pub verify_ssl: Boolean,
    pub user: String,
    pub pass: String,
    pub use_dkim: Boolean,
    pub dkim_domain_name: String,
    pub dkim_key_selector: String,
    pub dkim_private_key: String,
}

#[derive(Debug)]
pub struct ResponseData {
    pub mail: Option<Mail>,
}

#[derive(Debug)]
pub struct Mail {
    pub update_config: Option<UpdateConfig>,
}

#[derive(Debug)]
pub struct UpdateConfig {
    pub response_result: Option<ResponseStatus>,
}

/// The status of the mutation, where the answer holds it.
pub open spec fn spec_payload(data: Option<ResponseData>) -> Option<ResponseStatus> {
    match data {
        Some(ResponseData { mail: Some(Mail { update_config: Some(UpdateConfig { response_result: Some(response_result) }) }) }) => Some(response_result),
        _ => None,
    }
}

/// Tells whether the answer holds the status of the mutation.
pub fn has_payload(data: &Option<ResponseData>) -> (present: bool)
    ensures
        present == spec_payload(*data) is Some,
{
    match data {
        Some(ResponseData { mail: Some(Mail { update_config: Some(UpdateConfig { response_result: Some(_) }) }) }) => true,
        _ => false,
    }
}

/// Where the answer holds the status of the mutation: read off the path of fields that lead to
/// it; an absent field on the way means the answer does not hold it.
pub proof fn lemma_answer_read(data: ResponseData, mail: Mail, update_config: UpdateConfig, response_result: ResponseStatus)
    ensures
        spec_payload(None) is None,
        data.mail is None ==> spec_payload(Some(data)) is None,
        data.mail == Some(mail) && mail.update_config is None ==> spec_payload(Some(data)) is None,
        data.mail == Some(mail) && mail.update_config == Some(update_config) && update_config.response_result is None ==> spec_payload(Some(data)) is None,
        data.mail == Some(mail) && mail.update_config == Some(update_config) && update_config.response_result == Some(response_result) ==> spec_payload(Some(data)) == Some(response_result),
{
}

} // verus!
