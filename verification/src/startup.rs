use vstd::prelude::*;

verus! {

/// The public base URL of the application, the prefix of every
/// confirmation link the workflow hands out.
pub struct ApplicationBaseUrl(pub String);

} // verus!
