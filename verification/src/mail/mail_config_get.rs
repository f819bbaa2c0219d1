//! The `MailConfigGet` query.

use vstd::prelude::*;

use crate::mail::MailConfig;

verus! {

pub struct MailConfigGet;

pub const OPERATION_NAME: &'static str = "MailConfigGet";

pub const QUERY: &'static str = "query MailConfigGet {\n  mail {\n    config {\n      senderName\n      senderEmail\n      host\n      port\n      name\n      secure\n      verifySSL\n      user\n      pass\n      useDKIM\n      dkimDomainName\n      dkimKeySelector\n      dkimPrivateKey\n    }\n  }\n}\n";

#[derive(Debug)]
pub struct Variables;

#[derive(Debug)]
pub struct ResponseData {
    pub mail: Option<Mail>,
}

#[derive(Debug)]
pub struct Mail {
    pub config: Option<MailConfig>,
}

/// What the answer asks for, where the answer holds it.
pub open spec fn spec_payload(data: Option<ResponseData>) -> Option<MailConfig> {
    match data {
        Some(ResponseData { mail: Some(Mail { config: Some(config) }) }) => Some(config),
        _ => None,
    }
}

/// Tells whether the answer holds what the query asks for.
pub fn has_payload(data: &Option<ResponseData>) -> (present: bool)
    ensures
        present == spec_payload(*data) is Some,
{
    match data {
        Some(ResponseData { mail: Some(Mail { config: Some(_) }) }) => true,
        _ => false,
    }
}

/// Where the answer holds what the query asks for: read off the path of fields that lead to
/// it; an absent field on the way means the answer does not hold it.
pub proof fn lemma_answer_read(data: ResponseData, mail: Mail, config: MailConfig)
    ensures
        spec_payload(None) is None,
        data.mail is None ==> spec_payload(Some(data)) is None,
        data.mail == Some(mail) && mail.config is None ==> spec_payload(Some(data)) is None,
        data.mail == Some(mail) && mail.config == Some(config) ==> spec_payload(Some(data)) == Some(config),
{
}

} // verus!
