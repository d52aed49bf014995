use vstd::prelude::*;
use vstd::string::*;

verus! {

use crate::domain::subscriber_email::SubscriberEmail;

/// Stands for the email transport's error: a network fault, a non-2xx
/// response, or a timeout.
#[derive(Debug)]
pub struct EmailDispatchError;

/// One email as it was handed to the transport.
pub struct SentEmail {
    pub recipient: String,
    pub subject: String,
    pub html_body: String,
    pub text_body: String,
}

/// The email dispatcher as the subscribe workflow sees it: it accepts an
/// email for delivery or fails as a unit, with its own timeout and no
/// automatic retry.  `sent` records what was accepted; `fail_sending`
/// models the transport being unreachable.
pub struct EmailClient {
    pub sender: SubscriberEmail,
    pub sent: Vec<SentEmail>,
    pub fail_sending: bool,
}

impl EmailClient {
    pub fn new(sender: SubscriberEmail) -> (c: EmailClient)
        ensures
            c.sent@.len() == 0,
            !c.fail_sending,
            c.sender == sender,
    {
        EmailClient { sender, sent: Vec::new(), fail_sending: false }
    }

    pub fn send_email(
        &mut self,
        recipient: &SubscriberEmail,
        subject: &str,
        html_content: &str,
        text_content: &str,
    ) -> (r: Result<(), EmailDispatchError>)
        ensures
            final(self).fail_sending == old(self).fail_sending,
            final(self).sender == old(self).sender,
            r is Ok <==> !old(self).fail_sending,
            r is Err ==> final(self).sent@ =~= old(self).sent@,
            r is Ok ==> final(self).sent@.len() == old(self).sent@.len() + 1
                && final(self).sent@.subrange(0, old(self).sent@.len() as int) =~= old(self).sent@
                && final(self).sent@.last().recipient@ == recipient@
                && final(self).sent@.last().subject@ == subject@
                && final(self).sent@.last().html_body@ == html_content@
                && final(self).sent@.last().text_body@ == text_content@,
    {
        if self.fail_sending {
            Err(EmailDispatchError)
        } else {
            let message = SentEmail {
                recipient: recipient.as_ref().to_owned(),
                subject: subject.to_owned(),
                html_body: html_content.to_owned(),
                text_body: text_content.to_owned(),
            };
            self.sent.push(message);
            Ok(())
        }
    }
}

} // verus!
