use vstd::prelude::*;
use vstd::string::*;

verus! {

use vstd::utf8::encode_utf8;

/// A key a client supplies so that a retried request lands on the first
/// attempt's result: any string of one to 49 bytes.
#[derive(Debug)]
pub struct IdempotencyKey(String);

impl View for IdempotencyKey {
    type V = Seq<char>;

    closed spec fn view(&self) -> Seq<char> {
        self.0@
    }
}

impl IdempotencyKey {
    /// Accepts any non-empty string shorter than 50 bytes, unchanged.
    pub fn try_from(s: String) -> (r: Result<IdempotencyKey, String>)
        ensures
            (0 < encode_utf8(s@).len() < 50) <==> r is Ok,
            r matches Ok(k) ==> k@ == s@,
            r matches Err(m) ==> (if encode_utf8(s@).len() == 0 {
                m@ == "Idempotency Key cannot be empty"@
            } else {
                m@ == "Idempotency Key must be shorter than 50"@
            }),
    {
        let len = s.as_str().as_bytes().len();
        if len == 0 {
            Err("Idempotency Key cannot be empty".to_owned())
        } else if len >= 50 {
            Err("Idempotency Key must be shorter than 50".to_owned())
        } else {
            Ok(IdempotencyKey(s))
        }
    }

    pub fn as_ref(&self) -> (r: &str)
        ensures
            r@ == self@,
    {
        self.0.as_str()
    }

    pub fn into_string(self) -> (r: String)
        ensures
            r@ == self@,
    {
        self.0
    }
}

} // verus!
