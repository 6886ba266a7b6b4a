//! The client's own state: credentials fixed at construction, the
//! environment's base URL and certificate, and the bearer-token cache.
//!
//! The client performs no transport itself.  A caller issues the HTTP
//! exchanges and drives a [`crate::engine::SendEngine`] with their
//! outcomes; this type owns what persists across those calls.

use vstd::prelude::*;

use crate::clock::now_ts;
use crate::token::TokenCache;

verus! {

/// Initiator password pre-set for development environments, taken from
/// the gateway's published test credentials.
pub const DEFAULT_INITIATOR_PASSWORD: &'static str = "Safaricom999!*!";

/// Client state for communicating with the payment gateway.
#[derive(Debug, Clone, PartialEq, Eq)]
pub struct Mpesa {
    consumer_key: String,
    consumer_secret: String,
    initiator_password: Option<String>,
    base_url: String,
    certificate: String,
    cache: TokenCache,
}

impl Mpesa {
    pub closed spec fn spec_consumer_key(&self) -> Seq<char> {
        self.consumer_key@
    }

    pub closed spec fn spec_consumer_secret(&self) -> Seq<char> {
        self.consumer_secret@
    }

    pub closed spec fn spec_initiator_password(&self) -> Option<Seq<char>> {
        match self.initiator_password {
            Some(ref p) => Some(p@),
            None => None,
        }
    }

    pub closed spec fn spec_base_url(&self) -> Seq<char> {
        self.base_url@
    }

    pub closed spec fn spec_certificate(&self) -> Seq<char> {
        self.certificate@
    }

    pub closed spec fn spec_cache(&self) -> TokenCache {
        self.cache
    }

    /// Constructs a new client for the given credentials and environment.
    /// The token cache starts empty and expired.
    pub fn new(consumer_key: String, consumer_secret: String, base_url: String, certificate: String) -> (r: Self)
        ensures
            r.spec_consumer_key() == consumer_key@,
            r.spec_consumer_secret() == consumer_secret@,
            r.spec_initiator_password() is None,
            r.spec_base_url() == base_url@,
            r.spec_certificate() == certificate@,
            r.spec_cache().spec_token() == Seq::<char>::empty(),
            r.spec_cache().spec_expiry() == 0,
    {
        Mpesa {
            consumer_key,
            consumer_secret,
            initiator_password: None,
            base_url,
            certificate,
            cache: TokenCache::new(),
        }
    }

    /// The consumer key.
    pub fn consumer_key(&self) -> (r: &str)
        ensures
            r@ == self.spec_consumer_key(),
    {
        self.consumer_key.as_str()
    }

    /// The consumer secret.
    pub fn consumer_secret(&self) -> (r: &str)
        ensures
            r@ == self.spec_consumer_secret(),
    {
        self.consumer_secret.as_str()
    }

    /// The environment's base URL.
    pub fn base_url(&self) -> (r: &str)
        ensures
            r@ == self.spec_base_url(),
    {
        self.base_url.as_str()
    }

    /// The environment's certificate, consumed by the security-credential
    /// collaborator.
    pub fn certificate(&self) -> (r: &str)
        ensures
            r@ == self.spec_certificate(),
    {
        self.certificate.as_str()
    }

    /// The initiator password; the development default when none was set.
    pub fn initiator_password(&self) -> (r: String)
        ensures
            r@ == match self.spec_initiator_password() {
                Some(p) => p,
                None => DEFAULT_INITIATOR_PASSWORD@,
            },
    {
        match &self.initiator_password {
            Some(p) => p.clone(),
            None => DEFAULT_INITIATOR_PASSWORD.to_owned(),
        }
    }

    /// Sets the production initiator password.
    pub fn set_initiator_password(&mut self, initiator_password: String)
        ensures
            final(self).spec_initiator_password() == Some(initiator_password@),
            final(self).spec_consumer_key() == old(self).spec_consumer_key(),
            final(self).spec_consumer_secret() == old(self).spec_consumer_secret(),
            final(self).spec_base_url() == old(self).spec_base_url(),
            final(self).spec_certificate() == old(self).spec_certificate(),
            final(self).spec_cache() == old(self).spec_cache(),
    {
        self.initiator_password = Some(initiator_password);
    }

    /// Overwrites the cached bearer token and its expiry instant.  This is
    /// the only way client state changes after construction besides
    /// [`Self::set_initiator_password`].
    pub fn set_auth_token(&mut self, token: String, expiry: i64)
        ensures
            final(self).spec_cache().spec_token() == token@,
            final(self).spec_cache().spec_expiry() == expiry,
            final(self).spec_consumer_key() == old(self).spec_consumer_key(),
            final(self).spec_consumer_secret() == old(self).spec_consumer_secret(),
            final(self).spec_initiator_password() == old(self).spec_initiator_password(),
            final(self).spec_base_url() == old(self).spec_base_url(),
            final(self).spec_certificate() == old(self).spec_certificate(),
    {
        self.cache.write_token(token, expiry);
    }

    /// The cached bearer token, whatever its validity.
    pub fn auth_token(&self) -> (r: String)
        ensures
            r@ == self.spec_cache().spec_token(),
    {
        self.cache.read_token()
    }

    /// The cached expiry instant.
    pub fn auth_expiry(&self) -> (r: i64)
        ensures
            r == self.spec_cache().spec_expiry(),
    {
        self.cache.expiry()
    }

    /// The token cache itself, for driving a send.
    pub fn token_cache(&self) -> (r: &TokenCache)
        ensures
            *r == self.spec_cache(),
    {
        &self.cache
    }

    /// The token cache, writable for recording an authentication outcome.
    pub fn token_cache_mut(&mut self) -> (r: &mut TokenCache)
        ensures
            *r == old(self).spec_cache(),
            final(self).spec_cache() == *final(r),
            final(self).spec_consumer_key() == old(self).spec_consumer_key(),
            final(self).spec_consumer_secret() == old(self).spec_consumer_secret(),
            final(self).spec_initiator_password() == old(self).spec_initiator_password(),
            final(self).spec_base_url() == old(self).spec_base_url(),
            final(self).spec_certificate() == old(self).spec_certificate(),
    {
        &mut self.cache
    }

    /// True iff the cached token is usable at instant `now`.
    pub fn has_cached_auth_at(&self, now: i64) -> (r: bool)
        ensures
            r == self.spec_cache().valid_at(now),
    {
        self.cache.has_valid_token(now)
    }

    /// True iff the cached token is usable at the present wall-clock
    /// instant.  Whatever the clock reads, a positive answer means the
    /// cache holds a non-empty token.
    pub fn has_cached_auth(&self) -> (r: bool)
        ensures
            r ==> self.spec_cache().spec_token().len() > 0,
    {
        let now = now_ts();
        self.cache.has_valid_token(now)
    }
}

} // verus!
