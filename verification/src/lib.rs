//! Client core for a mobile-money payment gateway's REST API.
//!
//! The crate covers the authenticated-request execution engine: caching a
//! bearer token with expiry tracking, classifying transport and service
//! failures into retryable and permanent ones, and driving a generic
//! operation request through retry with exponential backoff.  The HTTP
//! exchanges themselves are left to the caller: the engine is fed each
//! outcome (status, content type, body text) as plain values and decides
//! every next step, so the decision logic is verified end to end.

mod client;
mod clock;
mod codec;
mod engine;
mod errors;
mod retry;
mod services;
mod text;
mod token;

pub use client::{Mpesa, DEFAULT_INITIATOR_PASSWORD};
pub use engine::{content_type_is_html, expiry_at, SendEngine, SendPhase};
pub use errors::{
    from_transport, BuilderError, EncryptionErrors, MpesaError, MpesaResult, ResponseError,
    TransportFailure,
};
pub use retry::{ExponentialBackoff, RetryDecision, RETRY_MIN_DELAY_MS};
pub use services::{auth_url, B2bResponse, B2cResponse, HttpMethod, Request, AUTHENTICATION_PATH};
pub use text::{str_contains_sub, str_eq, u64_to_string};
pub use token::{AuthenticationResponse, TokenCache};
