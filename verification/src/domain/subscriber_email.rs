use vstd::prelude::*;
use vstd::string::*;

verus! {

/// Whether a string is a syntactically valid email address under the HTML5
/// email grammar.  The verdict is a function of the characters alone.
pub uninterp spec fn email_is_valid(s: Seq<char>) -> bool;

/// Relies on validator::validate_email: it implements the HTML5 email
/// grammar, and its source rejects an empty string and one without `@`
/// before anything else.
#[verifier::external_body]
fn validate_email_str(s: &str) -> (b: bool)
    ensures
        b == email_is_valid(s@),
        b ==> s@.len() > 0,
        b ==> s@.contains('@'),
{
    validator::validate_email(s)
}

/// An email address that went through validation.  The wrapped string is
/// stored unchanged and is what storage and the email transport see.
#[derive(Debug)]
pub struct SubscriberEmail(String);

impl View for SubscriberEmail {
    type V = Seq<char>;

    closed spec fn view(&self) -> Seq<char> {
        self.0@
    }
}

impl SubscriberEmail {
    pub fn parse(s: String) -> (r: Result<SubscriberEmail, String>)
        ensures
            email_is_valid(s@) <==> r is Ok,
            r matches Ok(e) ==> e@ == s@,
            r matches Err(m) ==> m@ == s@ + " is not a valid email"@,
    {
        if validate_email_str(s.as_str()) {
            Ok(SubscriberEmail(s))
        } else {
            let mut msg = s;
            msg.append(" is not a valid email");
            Err(msg)
        }
    }

    pub fn as_ref(&self) -> (r: &str)
        ensures
            r@ == self@,
    {
        self.0.as_str()
    }
}

} // verus!
