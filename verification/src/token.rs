//! The bearer-token cache: the token last granted by the gateway and the
//! absolute instant (seconds since the Unix epoch) at which it expires.

use vstd::prelude::*;

verus! {

/// Response returned by the token endpoint on success.
#[derive(Debug, Clone, PartialEq, Eq)]
pub struct AuthenticationResponse {
    /// Access token which is used as the bearer token of operation requests.
    pub access_token: String,
    /// Expiry time in seconds, relative to when the response was issued.
    pub expires_in: u64,
}

impl AuthenticationResponse {
    /// Renders the grant for reporting: the token and its lifetime.
    pub fn to_display_string(&self) -> (r: String)
        ensures
            r@ == "token :"@ + self.access_token@ + " expires in: "@
                + crate::text::u64_to_seq(self.expires_in),
    {
        let mut s = String::from_str("token :");
        s.append(self.access_token.as_str());
        s.append(" expires in: ");
        let digits = crate::text::u64_to_string(self.expires_in);
        s.append(digits.as_str());
        proof {
            assert(s@ =~= "token :"@ + self.access_token@ + " expires in: "@
                + crate::text::u64_to_seq(self.expires_in));
        }
        s
    }
}

/// Holds the current bearer token and its absolute expiry instant.
///
/// The cache starts empty and expired; a successful authentication
/// overwrites both fields at once.  Validity is always judged against a
/// caller-supplied clock reading, so staleness is purely time-based.
#[derive(Debug, Clone, PartialEq, Eq)]
pub struct TokenCache {
    token: String,
    expiry: i64,
}

impl TokenCache {
    pub closed spec fn spec_token(&self) -> Seq<char> {
        self.token@
    }

    pub closed spec fn spec_expiry(&self) -> i64 {
        self.expiry
    }

    /// The cached token authorizes requests at instant `now`: it is
    /// non-empty and `now` lies strictly before the expiry instant.
    pub open spec fn valid_at(&self, now: i64) -> bool {
        now < self.spec_expiry() && self.spec_token().len() > 0
    }

    /// A fresh cache: no token, already expired.
    pub fn new() -> (r: Self)
        ensures
            r.spec_token() == Seq::<char>::empty(),
            r.spec_expiry() == 0,
    {
        TokenCache { token: String::new(), expiry: 0 }
    }

    /// True iff the cached token is usable at instant `now`.
    pub fn has_valid_token(&self, now: i64) -> (r: bool)
        ensures
            r == self.valid_at(now),
    {
        now < self.expiry && !self.token.as_str().is_empty()
    }

    /// The cached token, whatever its validity; callers must check
    /// validity first.
    pub fn read_token(&self) -> (r: String)
        ensures
            r@ == self.spec_token(),
    {
        self.token.clone()
    }

    /// The cached expiry instant.
    pub fn expiry(&self) -> (r: i64)
        ensures
            r == self.spec_expiry(),
    {
        self.expiry
    }

    /// Atomically replaces the token and its expiry instant.
    pub fn write_token(&mut self, token: String, expiry: i64)
        ensures
            final(self).spec_token() == token@,
            final(self).spec_expiry() == expiry,
    {
        self.token = token;
        self.expiry = expiry;
    }
}

} // verus!
