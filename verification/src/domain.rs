use vstd::prelude::*;
use vstd::string::*;
use unicode_segmentation::UnicodeSegmentation;

pub mod subscriber_email;

verus! {

use crate::domain::subscriber_email::SubscriberEmail;
use crate::domain::subscriber_email::email_is_valid;

/// Number of extended grapheme clusters in a string, as the Unicode
/// segmentation rules define it.  Multi-codepoint visual characters count
/// once, so this is not the same as `s.len()`.
pub uninterp spec fn grapheme_cluster_count(s: Seq<char>) -> nat;

/// Relies on unicode_segmentation's `graphemes` (with the extended grapheme
/// definitions): the cluster count is a function of the characters alone.
#[verifier::external_body]
fn grapheme_count(s: &str) -> (n: usize)
    ensures
        n as nat == grapheme_cluster_count(s@),
{
    s.graphemes(true).count()
}

/// The characters a subscriber name may never contain.
pub open spec fn spec_is_forbidden_char(c: char) -> bool {
    c == '/' || c == '(' || c == ')' || c == '[' || c == ']' || c == '{' || c == '}' || c == '"'
        || c == '<' || c == '>' || c == '\\'
}

fn is_forbidden_char(c: char) -> (r: bool)
    ensures
        r == spec_is_forbidden_char(c),
{
    c == '/' || c == '(' || c == ')' || c == '[' || c == ']' || c == '{' || c == '}' || c == '"'
        || c == '<' || c == '>' || c == '\\'
}

/// The `White_Space` characters, the ones `str::trim` strips.
pub open spec fn spec_is_whitespace(c: char) -> bool {
    (9 <= c as u32 && c as u32 <= 13) || c as u32 == 0x20 || c as u32 == 0x85 || c as u32 == 0xA0
        || c as u32 == 0x1680 || (0x2000 <= c as u32 && c as u32 <= 0x200A) || c as u32 == 0x2028
        || c as u32 == 0x2029 || c as u32 == 0x202F || c as u32 == 0x205F || c as u32 == 0x3000
}

fn is_whitespace_char(c: char) -> (r: bool)
    ensures
        r == spec_is_whitespace(c),
{
    let u = c as u32;
    (9 <= u && u <= 13) || u == 0x20 || u == 0x85 || u == 0xA0 || u == 0x1680 || (0x2000 <= u
        && u <= 0x200A) || u == 0x2028 || u == 0x2029 || u == 0x202F || u == 0x205F || u == 0x3000
}

/// A string that is only whitespace (an empty one counts) trims down to
/// nothing.
pub open spec fn spec_all_whitespace(s: Seq<char>) -> bool {
    forall|i: int| 0 <= i < s.len() ==> spec_is_whitespace(s[i])
}

pub open spec fn spec_no_forbidden_chars(s: Seq<char>) -> bool {
    forall|i: int| 0 <= i < s.len() ==> !spec_is_forbidden_char(s[i])
}

/// What a subscriber name must satisfy: not empty after trimming, at most
/// 256 grapheme clusters, and none of the forbidden characters.
pub open spec fn spec_name_valid(s: Seq<char>) -> bool {
    &&& !spec_all_whitespace(s)
    &&& grapheme_cluster_count(s) <= 256
    &&& spec_no_forbidden_chars(s)
}

/// A subscriber name that went through validation.  The wrapped string is
/// stored unchanged; construction through `parse` is the only validation
/// point.
#[derive(Debug)]
pub struct SubscriberName(String);

impl View for SubscriberName {
    type V = Seq<char>;

    closed spec fn view(&self) -> Seq<char> {
        self.0@
    }
}

impl SubscriberName {
    pub fn parse(s: String) -> (r: Result<SubscriberName, String>)
        ensures
            spec_name_valid(s@) <==> r is Ok,
            r matches Ok(n) ==> n@ == s@,
            r matches Err(m) ==> m@ == s@ + " is not a valid name"@,
    {
        let n = s.as_str().unicode_len();
        let mut i: usize = 0;
        let mut all_ws: bool = true;
        let mut forbidden: bool = false;
        while i < n
            invariant
                i <= n,
                n == s@.len(),
                all_ws == (forall|j: int| 0 <= j < i ==> spec_is_whitespace(s@[j])),
                forbidden == (exists|j: int| 0 <= j < i && spec_is_forbidden_char(s@[j])),
            decreases n - i,
        {
            let c = s.as_str().get_char(i);
            if !is_whitespace_char(c) {
                all_ws = false;
            }
            if is_forbidden_char(c) {
                forbidden = true;
            }
            i += 1;
        }
        let too_long = grapheme_count(s.as_str()) > 256;
        if all_ws || too_long || forbidden {
            let mut msg = s;
            msg.append(" is not a valid name");
            Err(msg)
        } else {
            Ok(SubscriberName(s))
        }
    }

    pub fn inner(self) -> (r: String)
        ensures
            r@ == self@,
    {
        self.0
    }

    pub fn inner_ref(&self) -> (r: &str)
        ensures
            r@ == self@,
    {
        self.0.as_str()
    }

    pub fn inner_mut(&mut self) -> &mut String {
        &mut self.0
    }
}

/// The two raw form fields of a subscription request, exactly as they were
/// submitted.
#[derive(Debug)]
pub struct FormData {
    pub email: String,
    pub name: String,
}

/// A validated name and email pair; it exists only between form decoding and
/// persistence.
#[derive(Debug)]
pub struct NewSubscriber {
    pub email: SubscriberEmail,
    pub name: SubscriberName,
}

impl NewSubscriber {
    /// Validates both form fields, the name first, as the subscribe
    /// operation requires.
    pub fn try_from(value: FormData) -> (r: Result<NewSubscriber, String>)
        ensures
            (spec_name_valid(value.name@) && email_is_valid(value.email@)) <==> r is Ok,
            r matches Ok(n) ==> n.name@ == value.name@ && n.email@ == value.email@,
            r matches Err(m) ==> if spec_name_valid(value.name@) {
                m@ == value.email@ + " is not a valid email"@
            } else {
                m@ == value.name@ + " is not a valid name"@
            },
    {
        let name = match SubscriberName::parse(value.name) {
            Ok(n) => n,
            Err(m) => {
                return Err(m);
            },
        };
        let email = match SubscriberEmail::parse(value.email) {
            Ok(e) => e,
            Err(m) => {
                return Err(m);
            },
        };
        Ok(NewSubscriber { email, name })
    }
}

} // verus!
