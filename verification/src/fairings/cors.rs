//! The cross-origin response decorator.
//!
//! A fixed, statically configured policy: every response — success and
//! error alike — is decorated with the same permissive headers, never
//! negotiated from the request.  The preflight route answers every path
//! with a fixed placeholder body.

use vstd::prelude::*;

verus! {

/// The decorator itself; it carries no state, the policy being fixed.
pub struct CORS;

impl CORS {
    /// The four headers added to every outbound response.
    pub fn response_headers(&self) -> (r: [(&'static str, &'static str); 4])
        ensures
            r@.len() == 4,
            r@[0].0@ == "Access-Control-Allow-Origin"@ && r@[0].1@ == "*"@,
            r@[1].0@ == "Access-Control-Allow-Methods"@ && r@[1].1@
                == "GET, POST, PUT, PATCH, DELETE, OPTIONS"@,
            r@[2].0@ == "Access-Crontol-Allow-Headers"@ && r@[2].1@ == "*"@,
            r@[3].0@ == "Access-Control-Allow-Credentials"@ && r@[3].1@ == "true"@,
    {
        [
            ("Access-Control-Allow-Origin", "*"),
            ("Access-Control-Allow-Methods", "GET, POST, PUT, PATCH, DELETE, OPTIONS"),
            ("Access-Crontol-Allow-Headers", "*"),
            ("Access-Control-Allow-Credentials", "true"),
        ]
    }
}

/// The catch-all preflight route: a fixed placeholder body.
pub fn options() -> (r: &'static str)
    ensures
        r@ == "hello rust"@,
{
    "hello rust"
}

} // verus!
