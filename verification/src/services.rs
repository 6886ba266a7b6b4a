//! The shapes that payment operations exchange with the core: the
//! logical request a builder hands in, and the typed responses of the
//! business-to-business and business-to-customer operations.

use vstd::prelude::*;

verus! {

/// Path of the token endpoint, relative to the environment's base URL.
pub const AUTHENTICATION_PATH: &'static str = "/oauth/v1/generate";

/// HTTP method of a logical request.
#[derive(Debug, Clone, Copy, PartialEq, Eq, Structural)]
pub enum HttpMethod {
    Get,
    Post,
}

/// One operation call as a builder supplies it: method, path relative to
/// the base URL, and the body already encoded as JSON text.  The core
/// reads nothing of the body.
#[derive(Debug, Clone, PartialEq, Eq)]
pub struct Request {
    pub method: HttpMethod,
    pub path: &'static str,
    pub body: String,
}

impl Request {
    /// The absolute URL of this request under the given base URL.
    pub fn url(&self, base_url: &str) -> (r: String)
        ensures
            r@ == base_url@ + "/"@ + self.path@,
    {
        let mut s = String::from_str(base_url);
        s.append("/");
        s.append(self.path);
        proof {
            assert(s@ =~= base_url@ + "/"@ + self.path@);
        }
        s
    }
}

/// The absolute URL of the token endpoint under the given base URL.
pub fn auth_url(base_url: &str) -> (r: String)
    ensures
        r@ == base_url@ + AUTHENTICATION_PATH@,
{
    let mut s = String::from_str(base_url);
    s.append(AUTHENTICATION_PATH);
    proof {
        assert(s@ =~= base_url@ + AUTHENTICATION_PATH@);
    }
    s
}

/// Response of a successful business-to-business payment request.
#[derive(Debug, Clone, PartialEq, Eq)]
pub struct B2bResponse {
    pub conversation_id: String,
    pub originator_conversation_id: String,
    pub response_code: String,
    pub response_description: String,
}

/// Response of a successful business-to-customer payment request.
#[derive(Debug, Clone, PartialEq, Eq)]
pub struct B2cResponse {
    pub conversation_id: String,
    pub originator_conversation_id: String,
    pub response_code: String,
    pub response_description: String,
}

} // verus!
