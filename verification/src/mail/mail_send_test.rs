//! The `MailSendTest` mutation.

use vstd::prelude::*;

use crate::common::ResponseStatus;

verus! {

pub struct MailSendTest;

pub const OPERATION_NAME: &'static str = "MailSendTest";

pub const QUERY: &'static str = "mutation MailSendTest(\n  $recipientEmail: String!\n) {\n  mail {\n    sendTest(\n      recipientEmail: $recipientEmail\n    ) {\n      responseResult {\n        succeeded\n        errorCode\n        slug\n        message\n      }\n    }\n  }\n}\n";

#[derive(Debug)]
pub struct Variables {
    pub recipient_email: String,
}

#[derive(Debug)]
pub struct ResponseData {
    pub mail: Option<Mail>,
}

#[derive(Debug)]
pub struct Mail {
    pub send_test: Option<SendTest>,
}

#[derive(Debug)]
pub struct SendTest {
    pub response_result: Option<ResponseStatus>,
}

/// The status of the mutation, where the answer holds it.
pub open spec fn spec_payload(data: Option<ResponseData>) -> Option<ResponseStatus> {
    match data {
        Some(ResponseData { mail: Some(Mail { send_test: Some(SendTest { response_result: Some(response_result) }) }) }) => Some(response_result),
        _ => None,
    }
}

/// Tells whether the answer holds the status of the mutation.
pub fn has_payload(data: &Option<ResponseData>) -> (present: bool)
    ensures
        present == spec_payload(*data) is Some,
{
    match data {
        Some(ResponseData { mail: Some(Mail { send_test: Some(SendTest { response_result: Some(_) }) }) }) => true,
        _ => false,
    }
}

/// Where the answer holds the status of the mutation: read off the path of fields that lead to
/// it; an absent field on the way means the answer does not hold it.
pub proof fn lemma_answer_read(data: ResponseData, mail: Mail, send_test: SendTest, response_result: ResponseStatus)
    ensures
        spec_payload(None) is None,
        data.mail is None ==> spec_payload(Some(data)) is None,
        data.mail == Some(mail) && mail.send_test is None ==> spec_payload(Some(data)) is None,
        data.mail == Some(mail) && mail.send_test == Some(send_test) && send_test.response_result is None ==> spec_payload(Some(data)) is None,
        data.mail == Some(mail) && mail.send_test == Some(send_test) && send_test.response_result == Some(response_result) ==> spec_payload(Some(data)) == Some(response_result),
{
}

} // verus!
