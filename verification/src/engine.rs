//! The authenticated-request execution engine.
//!
//! A [`SendEngine`] drives one logical `send`: it resolves a bearer token
//! (from the cache, or by demanding an authentication exchange), then
//! demands operation attempts, classifying each outcome and spacing
//! retries by the backoff schedule.  The caller performs each HTTP
//! exchange and feeds the outcome back as plain values; every decision in
//! between is made here and verified.
//!
//! The engine counts the exchanges it demands, so the central cache-use
//! guarantees are machine-checked invariants: a send that starts with a
//! valid cached token never demands authentication, a send that starts
//! without one demands exactly one successful authentication before the
//! first operation attempt, and the token in use never changes within
//! one send.

use vstd::prelude::*;

use crate::codec::{auth_body_of, decode_auth_body, decode_error_body, decode_json_ok, error_body_of, json_wf};
use crate::errors::{from_transport, spec_from_transport, MpesaError, TransportFailure};
use crate::retry::{code_marks_transient, spec_default_backoff, ExponentialBackoff, RETRY_MIN_DELAY_MS};
use crate::text::{contains_sub, str_contains_sub, str_eq};
use crate::token::TokenCache;

verus! {

/// A response status in the 2xx range reports success.
pub open spec fn is_success_status(status: u16) -> bool {
    200 <= status < 300
}

/// The upstream is likely rate-limiting or unavailable and answered with
/// an HTML or garbled page instead of structured JSON: an undecodable
/// error body under these conditions is treated as transient.
pub open spec fn transient_heuristic(status: u16, is_html: bool) -> bool {
    (is_html && status == 403) || status == 429 || status == 503
}

/// The content-type header value, when present, names HTML.
pub open spec fn spec_content_type_html(content_type: Option<&str>) -> bool {
    match content_type {
        Some(c) => contains_sub(c@, "text/html"@),
        None => false,
    }
}

/// An authentication exchange succeeded outright: 2xx status and a body
/// that decodes as the token grant.
pub open spec fn auth_accepted(status: u16, body: Seq<char>) -> bool {
    is_success_status(status) && auth_body_of(body) is Some
}

/// The absolute expiry instant for a token granted at `now` for
/// `expires_in` seconds, clamped to the representable range.
pub open spec fn spec_expiry_at(now: i64, expires_in: u64) -> i64 {
    let e: int = if expires_in >= 0x7fff_ffff_ffff_ffff {
        0x7fff_ffff_ffff_ffff
    } else {
        expires_in as int
    };
    if now + e > 0x7fff_ffff_ffff_ffff {
        0x7fff_ffff_ffff_ffff as i64
    } else {
        (now + e) as i64
    }
}

/// The option holds a string reading `s`.
pub open spec fn opt_string_is(o: Option<String>, s: Seq<char>) -> bool {
    o matches Some(t) && t@ == s
}

/// The option holds the service error decoded from `t`: request ID,
/// error code, error message.
pub open spec fn opt_service_error_is(o: Option<MpesaError>, t: (Seq<char>, Seq<char>, Seq<char>)) -> bool {
    o matches Some(MpesaError::Service(re)) && re.request_id@ == t.0 && re.error_code@ == t.1
        && re.error_message@ == t.2
}

/// Whether the content-type header value names HTML.
pub fn content_type_is_html(content_type: Option<&str>) -> (r: bool)
    ensures
        r == spec_content_type_html(content_type),
{
    match content_type {
        Some(c) => str_contains_sub(c, "text/html"),
        None => false,
    }
}

/// The absolute expiry instant for a token granted at `now` for
/// `expires_in` seconds, clamped to the representable range.
pub fn expiry_at(now: i64, expires_in: u64) -> (r: i64)
    ensures
        r == spec_expiry_at(now, expires_in),
{
    let e: i64 = if expires_in >= 0x7fff_ffff_ffff_ffff {
        i64::MAX
    } else {
        expires_in as i64
    };
    if now > i64::MAX - e {
        i64::MAX
    } else {
        now + e
    }
}

/// Where one logical send stands.
#[derive(Debug, Clone, Copy, PartialEq, Eq)]
pub enum SendPhase {
    /// No usable token yet: the next exchange to perform is
    /// authentication.
    NeedToken,
    /// A token is resolved: the next exchange to perform is the
    /// operation attempt.
    Executing,
    /// Terminal: the operation answered successfully.
    Succeeded,
    /// Terminal: a permanent failure was hit or the retry budget is
    /// spent.
    Failed,
}

/// The state of one logical send.  The caller matches on `phase` to see
/// which exchange to perform next, reports each outcome through the
/// `on_*` methods, sleeps whenever a method returns a delay, and takes
/// the result from [`SendEngine::into_result`] at a terminal phase.
#[derive(Debug, Clone, PartialEq, Eq)]
pub struct SendEngine {
    pub phase: SendPhase,
    /// The resolved bearer token; fixed for the rest of the send once
    /// set.
    pub token: Option<String>,
    /// Whether the send began with a valid cached token.
    pub started_valid: bool,
    /// Authentication exchanges performed so far.
    pub auth_calls: u64,
    /// Authentication exchanges that failed and were retried.
    pub auth_failures: u64,
    /// Operation exchanges performed so far.
    pub op_calls: u64,
    pub backoff: ExponentialBackoff,
    /// The successful response body, at phase `Succeeded`.
    pub result_body: Option<String>,
    /// The failure surfaced to the caller, at phase `Failed`.
    pub error: Option<MpesaError>,
}

impl SendEngine {
    /// The engine's invariant.  Beyond bookkeeping, it carries the
    /// cache-use guarantees: a send that began with a valid cached token
    /// has performed no authentication exchange at all, and one that did
    /// not has performed exactly one more than it retried; operation
    /// exchanges happen only once a token is resolved.
    pub open spec fn wf(&self) -> bool {
        &&& self.backoff.wf()
        &&& (self.phase is NeedToken ==> self.token is None)
        &&& (self.phase is NeedToken ==> self.auth_calls == self.auth_failures)
        &&& (self.phase is Executing ==> self.token is Some)
        &&& (self.phase is Succeeded ==> self.result_body is Some && self.token is Some)
        &&& (self.phase is Failed ==> self.error is Some)
        &&& (self.started_valid ==> self.token is Some)
        &&& (self.started_valid ==> self.auth_calls == 0)
        &&& (!self.started_valid && self.token is Some ==> self.auth_calls == self.auth_failures + 1)
        &&& (self.op_calls > 0 ==> self.token is Some)
    }

    /// Begins a send at instant `now`: a valid cached token is taken as
    /// it is and the engine proceeds to the operation; otherwise the
    /// engine first demands authentication.  This is the only place the
    /// cache is consulted: the choice is fixed for the whole send.
    pub fn start(cache: &TokenCache, now: i64) -> (e: SendEngine)
        ensures
            e.wf(),
            e.started_valid == cache.valid_at(now),
            cache.valid_at(now) ==> e.phase is Executing && opt_string_is(e.token, cache.spec_token()),
            !cache.valid_at(now) ==> e.phase is NeedToken,
            e.auth_calls == 0,
            e.auth_failures == 0,
            e.op_calls == 0,
            e.backoff == spec_default_backoff(),
            e.result_body is None,
            e.error is None,
    {
        if cache.has_valid_token(now) {
            SendEngine {
                phase: SendPhase::Executing,
                token: Some(cache.read_token()),
                started_valid: true,
                auth_calls: 0,
                auth_failures: 0,
                op_calls: 0,
                backoff: ExponentialBackoff::new(),
                result_body: None,
                error: None,
            }
        } else {
            SendEngine {
                phase: SendPhase::NeedToken,
                token: None,
                started_valid: false,
                auth_calls: 0,
                auth_failures: 0,
                op_calls: 0,
                backoff: ExponentialBackoff::new(),
                result_body: None,
                error: None,
            }
        }
    }

    /// Reports the response of an authentication exchange performed at
    /// instant `now`.
    ///
    /// On a 2xx response whose body decodes as a token grant, the token
    /// and its expiry (`now` plus the granted seconds) are written to the
    /// cache — the sole cache write, and only on a fully decoded success
    /// — and the engine proceeds to the operation.  On a 2xx response
    /// with an undecodable body the send fails permanently.  On any other
    /// response, a decoded service error fails the send permanently
    /// (token-endpoint errors are never retried by error code); an
    /// undecodable error body is retried under the transient heuristic,
    /// subject to the backoff budget, and otherwise fails permanently.
    ///
    /// A returned delay tells the caller to wait that many milliseconds
    /// and authenticate again.
    pub fn on_auth_response(
        &mut self,
        cache: &mut TokenCache,
        status: u16,
        content_type: Option<&str>,
        body: &str,
        now: i64,
    ) -> (r: Option<u64>)
        requires
            old(self).wf(),
            old(self).phase is NeedToken,
            old(self).auth_calls < 0xffff_ffff_ffff_ffff,
            old(self).auth_failures < 0xffff_ffff_ffff_ffff,
        ensures
            final(self).wf(),
            final(self).auth_calls == old(self).auth_calls + 1,
            final(self).op_calls == old(self).op_calls,
            final(self).started_valid == old(self).started_valid,
            final(self).result_body == old(self).result_body,
            // the cache is written on a fully decoded success and never otherwise
            auth_accepted(status, body@) ==> {
                &&& final(self).phase is Executing
                &&& opt_string_is(final(self).token, auth_body_of(body@).unwrap().0)
                &&& final(cache).spec_token() == auth_body_of(body@).unwrap().0
                &&& final(cache).spec_expiry() == spec_expiry_at(now, auth_body_of(body@).unwrap().1)
                &&& final(self).auth_failures == old(self).auth_failures
                &&& final(self).backoff == old(self).backoff
                &&& r is None
            },
            !auth_accepted(status, body@) ==> {
                &&& *final(cache) == *old(cache)
                &&& final(self).token is None
            },
            // a 2xx body that does not decode is a permanent parse failure
            is_success_status(status) && auth_body_of(body@) is None ==> {
                &&& final(self).phase is Failed
                &&& final(self).error == Some(MpesaError::ParseError)
                &&& final(self).backoff == old(self).backoff
                &&& r is None
            },
            // a decoded service error from the token endpoint is permanent
            !is_success_status(status) && error_body_of(body@) is Some ==> {
                &&& final(self).phase is Failed
                &&& opt_service_error_is(final(self).error, error_body_of(body@).unwrap())
                &&& final(self).backoff == old(self).backoff
                &&& r is None
            },
            // an undecodable error body under the transient heuristic is retried
            !is_success_status(status) && error_body_of(body@) is None && transient_heuristic(
                status,
                spec_content_type_html(content_type),
            ) ==> {
                &&& r == old(self).backoff.spec_granted(0)
                &&& final(self).backoff == old(self).backoff.spec_after_grant(0)
                &&& !old(self).backoff.spec_exhausted() ==> final(self).phase is NeedToken
                    && final(self).auth_failures == old(self).auth_failures + 1
                &&& old(self).backoff.spec_exhausted() ==> final(self).phase is Failed
                    && final(self).error == Some(MpesaError::TransientError)
            },
            // an undecodable error body outside the heuristic is permanent
            !is_success_status(status) && error_body_of(body@) is None && !transient_heuristic(
                status,
                spec_content_type_html(content_type),
            ) ==> {
                &&& final(self).phase is Failed
                &&& final(self).error == Some(MpesaError::ParseError)
                &&& final(self).backoff == old(self).backoff
                &&& r is None
            },
    {
        self.auth_calls = self.auth_calls + 1;
        if 200 <= status && status < 300 {
            match decode_auth_body(body) {
                Some(grant) => {
                    let expiry = expiry_at(now, grant.expires_in);
                    let token = grant.access_token;
                    cache.write_token(token.clone(), expiry);
                    self.token = Some(token);
                    self.phase = SendPhase::Executing;
                    None
                },
                None => {
                    self.phase = SendPhase::Failed;
                    self.error = Some(MpesaError::ParseError);
                    None
                },
            }
        } else {
            let is_html = content_type_is_html(content_type);
            match decode_error_body(body) {
                Some(res) => {
                    self.phase = SendPhase::Failed;
                    self.error = Some(MpesaError::Service(res));
                    None
                },
                None => {
                    if (is_html && status == 403) || status == 429 || status == 503 {
                        match self.backoff.next_delay(0) {
                            Some(d) => {
                                self.auth_failures = self.auth_failures + 1;
                                Some(d)
                            },
                            None => {
                                self.phase = SendPhase::Failed;
                                self.error = Some(MpesaError::TransientError);
                                None
                            },
                        }
                    } else {
                        self.phase = SendPhase::Failed;
                        self.error = Some(MpesaError::ParseError);
                        None
                    }
                },
            }
        }
    }

    /// Reports that an authentication exchange failed in transport,
    /// before any response arrived.  Connection and timeout failures are
    /// transient and retried subject to the backoff budget; any other
    /// transport failure is permanent.  The cache is untouched.
    pub fn on_auth_transport_error(&mut self, failure: TransportFailure) -> (r: Option<u64>)
        requires
            old(self).wf(),
            old(self).phase is NeedToken,
            old(self).auth_calls < 0xffff_ffff_ffff_ffff,
            old(self).auth_failures < 0xffff_ffff_ffff_ffff,
        ensures
            final(self).wf(),
            final(self).auth_calls == old(self).auth_calls + 1,
            final(self).op_calls == old(self).op_calls,
            final(self).started_valid == old(self).started_valid,
            final(self).result_body == old(self).result_body,
            final(self).token is None,
            failure.connect || failure.timeout ==> {
                &&& r == old(self).backoff.spec_granted(0)
                &&& final(self).backoff == old(self).backoff.spec_after_grant(0)
                &&& !old(self).backoff.spec_exhausted() ==> final(self).phase is NeedToken
                    && final(self).auth_failures == old(self).auth_failures + 1
                &&& old(self).backoff.spec_exhausted() ==> final(self).phase is Failed
                    && final(self).error == Some(MpesaError::TransientError)
            },
            !(failure.connect || failure.timeout) ==> {
                &&& final(self).phase is Failed
                &&& final(self).error == Some(spec_from_transport(failure))
                &&& final(self).backoff == old(self).backoff
                &&& r is None
            },
    {
        self.auth_calls = self.auth_calls + 1;
        let err = from_transport(failure);
        match err {
            MpesaError::TransientError => {
                match self.backoff.next_delay(0) {
                    Some(d) => {
                        self.auth_failures = self.auth_failures + 1;
                        Some(d)
                    },
                    None => {
                        self.phase = SendPhase::Failed;
                        self.error = Some(MpesaError::TransientError);
                        None
                    },
                }
            },
            e => {
                self.phase = SendPhase::Failed;
                self.error = Some(e);
                None
            },
        }
    }

    /// Reports the response of an operation attempt.
    ///
    /// A 2xx response with a well-formed JSON body ends the send
    /// successfully with that body; a 2xx response with a malformed body
    /// fails permanently, with no retry.  On any other response, a
    /// decoded service error is retried — with at least the fixed
    /// minimum delay — exactly when its code marks a busy or locked
    /// upstream, and otherwise fails the send; an undecodable error body
    /// is retried under the transient heuristic and otherwise fails
    /// permanently.  The resolved token is never changed: retries within
    /// one send reuse it.
    ///
    /// A returned delay tells the caller to wait that many milliseconds
    /// and repeat the operation attempt.
    pub fn on_op_response(
        &mut self,
        status: u16,
        content_type: Option<&str>,
        body: &str,
    ) -> (r: Option<u64>)
        requires
            old(self).wf(),
            old(self).phase is Executing,
            old(self).op_calls < 0xffff_ffff_ffff_ffff,
        ensures
            final(self).wf(),
            final(self).op_calls == old(self).op_calls + 1,
            final(self).auth_calls == old(self).auth_calls,
            final(self).auth_failures == old(self).auth_failures,
            final(self).started_valid == old(self).started_valid,
            final(self).token == old(self).token,
            // success: a 2xx response with a well-formed JSON body
            is_success_status(status) && json_wf(body@) ==> {
                &&& final(self).phase is Succeeded
                &&& opt_string_is(final(self).result_body, body@)
                &&& final(self).backoff == old(self).backoff
                &&& r is None
            },
            // a 2xx body that is not JSON is a permanent parse failure
            is_success_status(status) && !json_wf(body@) ==> {
                &&& final(self).phase is Failed
                &&& final(self).error == Some(MpesaError::ParseError)
                &&& final(self).backoff == old(self).backoff
                &&& r is None
            },
            // a decoded service error: retried with the minimum delay iff
            // its code marks the upstream busy or locked
            !is_success_status(status) && error_body_of(body@) is Some && code_marks_transient(
                error_body_of(body@).unwrap().1,
                error_body_of(body@).unwrap().2,
            ) ==> {
                &&& r == old(self).backoff.spec_granted(RETRY_MIN_DELAY_MS)
                &&& final(self).backoff == old(self).backoff.spec_after_grant(RETRY_MIN_DELAY_MS)
                &&& (r matches Some(d) ==> d >= RETRY_MIN_DELAY_MS)
                &&& !old(self).backoff.spec_exhausted() ==> final(self).phase is Executing
                &&& old(self).backoff.spec_exhausted() ==> final(self).phase is Failed
                    && opt_service_error_is(final(self).error, error_body_of(body@).unwrap())
            },
            !is_success_status(status) && error_body_of(body@) is Some && !code_marks_transient(
                error_body_of(body@).unwrap().1,
                error_body_of(body@).unwrap().2,
            ) ==> {
                &&& final(self).phase is Failed
                &&& opt_service_error_is(final(self).error, error_body_of(body@).unwrap())
                &&& final(self).backoff == old(self).backoff
                &&& r is None
            },
            // an undecodable error body under the transient heuristic is retried
            !is_success_status(status) && error_body_of(body@) is None && transient_heuristic(
                status,
                spec_content_type_html(content_type),
            ) ==> {
                &&& r == old(self).backoff.spec_granted(0)
                &&& final(self).backoff == old(self).backoff.spec_after_grant(0)
                &&& !old(self).backoff.spec_exhausted() ==> final(self).phase is Executing
                &&& old(self).backoff.spec_exhausted() ==> final(self).phase is Failed
                    && final(self).error == Some(MpesaError::TransientError)
            },
            !is_success_status(status) && error_body_of(body@) is None && !transient_heuristic(
                status,
                spec_content_type_html(content_type),
            ) ==> {
                &&& final(self).phase is Failed
                &&& final(self).error == Some(MpesaError::ParseError)
                &&& final(self).backoff == old(self).backoff
                &&& r is None
            },
    {
        self.op_calls = self.op_calls + 1;
        if 200 <= status && status < 300 {
            if decode_json_ok(body) {
                self.phase = SendPhase::Succeeded;
                self.result_body = Some(String::from_str(body));
                None
            } else {
                self.phase = SendPhase::Failed;
                self.error = Some(MpesaError::ParseError);
                None
            }
        } else {
            let is_html = content_type_is_html(content_type);
            match decode_error_body(body) {
                Some(res) => {
                    let code_transient = str_eq(res.error_code.as_str(), "500.003.02")
                        || str_eq(res.error_code.as_str(), "500.003.03")
                        || (str_eq(res.error_code.as_str(), "500.001.1001")
                            && str_contains_sub(res.error_message.as_str(), "Unable to lock subscriber"));
                    if code_transient {
                        match self.backoff.next_delay(RETRY_MIN_DELAY_MS) {
                            Some(d) => Some(d),
                            None => {
                                self.phase = SendPhase::Failed;
                                self.error = Some(MpesaError::Service(res));
                                None
                            },
                        }
                    } else {
                        self.phase = SendPhase::Failed;
                        self.error = Some(MpesaError::Service(res));
                        None
                    }
                },
                None => {
                    if (is_html && status == 403) || status == 429 || status == 503 {
                        match self.backoff.next_delay(0) {
                            Some(d) => Some(d),
                            None => {
                                self.phase = SendPhase::Failed;
                                self.error = Some(MpesaError::TransientError);
                                None
                            },
                        }
                    } else {
                        self.phase = SendPhase::Failed;
                        self.error = Some(MpesaError::ParseError);
                        None
                    }
                },
            }
        }
    }

    /// Reports that an operation attempt failed in transport, before any
    /// response arrived.  Connection and timeout failures are transient
    /// and retried subject to the backoff budget; any other transport
    /// failure is permanent.  The resolved token is never changed.
    pub fn on_op_transport_error(&mut self, failure: TransportFailure) -> (r: Option<u64>)
        requires
            old(self).wf(),
            old(self).phase is Executing,
            old(self).op_calls < 0xffff_ffff_ffff_ffff,
        ensures
            final(self).wf(),
            final(self).op_calls == old(self).op_calls + 1,
            final(self).auth_calls == old(self).auth_calls,
            final(self).auth_failures == old(self).auth_failures,
            final(self).started_valid == old(self).started_valid,
            final(self).token == old(self).token,
            failure.connect || failure.timeout ==> {
                &&& r == old(self).backoff.spec_granted(0)
                &&& final(self).backoff == old(self).backoff.spec_after_grant(0)
                &&& !old(self).backoff.spec_exhausted() ==> final(self).phase is Executing
                &&& old(self).backoff.spec_exhausted() ==> final(self).phase is Failed
                    && final(self).error == Some(MpesaError::TransientError)
            },
            !(failure.connect || failure.timeout) ==> {
                &&& final(self).phase is Failed
                &&& final(self).error == Some(spec_from_transport(failure))
                &&& final(self).backoff == old(self).backoff
                &&& r is None
            },
    {
        self.op_calls = self.op_calls + 1;
        let err = from_transport(failure);
        match err {
            MpesaError::TransientError => {
                match self.backoff.next_delay(0) {
                    Some(d) => Some(d),
                    None => {
                        self.phase = SendPhase::Failed;
                        self.error = Some(MpesaError::TransientError);
                        None
                    },
                }
            },
            e => {
                self.phase = SendPhase::Failed;
                self.error = Some(e);
                None
            },
        }
    }

    /// The send's outcome, at a terminal phase: the successful response
    /// body, or the failure surfaced to the caller.
    pub fn into_result(self) -> (r: Result<String, MpesaError>)
        requires
            self.wf(),
            self.phase is Succeeded || self.phase is Failed,
        ensures
            self.phase is Succeeded ==> (r matches Ok(b) && Some(b) == self.result_body),
            self.phase is Failed ==> (r matches Err(e) && Some(e) == self.error),
    {
        match self.phase {
            SendPhase::Succeeded => {
                match self.result_body {
                    Some(b) => Ok(b),
                    None => Err(MpesaError::Message("send is not finished")),
                }
            },
            _ => {
                match self.error {
                    Some(e) => Err(e),
                    None => Err(MpesaError::Message("send is not finished")),
                }
            },
        }
    }
}

/// A send that began with a valid cached token never performs an
/// authentication exchange, however far it has progressed: the cached
/// token is reused for every attempt.
pub proof fn lemma_cache_hit_no_auth(e: SendEngine)
    requires
        e.wf(),
        e.started_valid,
    ensures
        e.auth_calls == 0,
{
}

/// A send that began without a valid cached token performs exactly one
/// authentication exchange more than it retried before any operation
/// attempt; in particular, when no authentication attempt failed, exactly
/// one authentication exchange precedes the first operation exchange.
pub proof fn lemma_cold_start_single_auth(e: SendEngine)
    requires
        e.wf(),
        !e.started_valid,
        e.op_calls > 0,
    ensures
        e.auth_calls == e.auth_failures + 1,
        e.auth_failures == 0 ==> e.auth_calls == 1,
{
}

} // verus!
