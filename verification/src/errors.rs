//! The unified error type surfaced by the client, and the structured
//! error payload returned by the gateway on failed requests.

use vstd::prelude::*;

verus! {

/// Structured error payload decoded from a non-2xx response body.
#[derive(Debug, Clone, PartialEq, Eq)]
pub struct ResponseError {
    pub request_id: String,
    pub error_code: String,
    pub error_message: String,
}

impl ResponseError {
    /// Renders the payload the way the gateway's support channels expect it
    /// to be quoted: `requestID: .., errorCode:.., errorMessage:..`.
    pub fn to_display_string(&self) -> (r: String)
        ensures
            r@ == "requestID: "@ + self.request_id@ + ", errorCode:"@ + self.error_code@
                + ", errorMessage:"@ + self.error_message@,
    {
        let mut s = String::from_str("requestID: ");
        s.append(self.request_id.as_str());
        s.append(", errorCode:");
        s.append(self.error_code.as_str());
        s.append(", errorMessage:");
        s.append(self.error_message.as_str());
        proof {
            assert(s@ =~= "requestID: "@ + self.request_id@ + ", errorCode:"@
                + self.error_code@ + ", errorMessage:"@ + self.error_message@);
        }
        s
    }
}

/// Failure raised while assembling a request from caller-supplied fields.
#[derive(Debug, Clone, PartialEq, Eq)]
pub enum BuilderError {
    UninitializedField(&'static str),
    ValidationError(String),
}

impl From<String> for BuilderError {
    fn from(s: String) -> (r: Self) {
        BuilderError::ValidationError(s)
    }
}

impl vstd::std_specs::convert::FromSpecImpl<String> for BuilderError {
    open spec fn obeys_from_spec() -> bool {
        true
    }

    open spec fn from_spec(s: String) -> Self {
        BuilderError::ValidationError(s)
    }
}

impl BuilderError {
    /// Human-readable description of the builder failure.
    pub fn message(&self) -> (r: String)
        ensures
            r@ == match *self {
                BuilderError::UninitializedField(f) => "Field ["@ + f@ + "] is required"@,
                BuilderError::ValidationError(ref s) => "Field ["@ + s@ + "] is invalid"@,
            },
    {
        let mut s = String::from_str("Field [");
        match self {
            BuilderError::UninitializedField(f) => {
                s.append(f);
                s.append("] is required");
            },
            BuilderError::ValidationError(v) => {
                s.append(v.as_str());
                s.append("] is invalid");
            },
        }
        proof {
            assert(s@ =~= match *self {
                BuilderError::UninitializedField(f) => "Field ["@ + f@ + "] is required"@,
                BuilderError::ValidationError(ref v) => "Field ["@ + v@ + "] is invalid"@,
            });
        }
        s
    }
}

/// What the client's logic reads of a failed transport exchange: whether
/// the failure happened while connecting or by timing out, and a short
/// description for reporting.
#[derive(Debug, Clone, PartialEq, Eq)]
pub struct TransportFailure {
    pub connect: bool,
    pub timeout: bool,
    pub message: String,
}

/// Every failure a caller of the client can observe.
#[derive(Debug, Clone, PartialEq, Eq)]
pub enum MpesaError {
    /// Structured error decoded from a non-2xx response.
    Service(ResponseError),
    /// Transport exchange failed and the failure is not known recoverable.
    NetworkError(TransportFailure),
    /// A recoverable failure: retrying is possible.
    TransientError,
    /// A body could not be decoded as it should.
    ParseError,
    /// An environment variable was missing or unreadable.
    EnvironmentalVariableError(String),
    /// Security-credential generation failed.
    EncryptionErrors(EncryptionErrors),
    Message(&'static str),
    BuilderError(BuilderError),
}

/// Failures of the security-credential generation collaborator, kept as
/// the stage that failed plus its reported description.
#[derive(Debug, Clone, PartialEq, Eq)]
pub enum EncryptionErrors {
    RsaEncryption(String),
    PublicKey(String),
    Pem(String),
    X509(String),
}

/// `Result` alias used across the client.
pub type MpesaResult<T> = Result<T, MpesaError>;

/// Turns the outcome of a transport exchange into the client's error:
/// connection and timeout failures are the recoverable kind, anything
/// else is surfaced as a network error.
pub fn from_transport(f: TransportFailure) -> (r: MpesaError)
    ensures
        r == spec_from_transport(f),
{
    if f.connect || f.timeout {
        MpesaError::TransientError
    } else {
        MpesaError::NetworkError(f)
    }
}

pub open spec fn spec_from_transport(f: TransportFailure) -> MpesaError {
    if f.connect || f.timeout {
        MpesaError::TransientError
    } else {
        MpesaError::NetworkError(f)
    }
}

impl MpesaError {
    /// Human-readable description, mirroring what each failure means to a
    /// caller.  Structured service errors carry their payload.
    pub fn message(&self) -> (r: String)
        ensures
            r@ == self.spec_message(),
    {
        match self {
            MpesaError::Service(res) => {
                let mut s = String::from_str("Service error: ");
                let body = res.to_display_string();
                s.append(body.as_str());
                proof {
                    assert(s@ =~= self.spec_message());
                }
                s
            },
            MpesaError::NetworkError(_) => {
                String::from_str("An error has occurred while performing the http request")
            },
            MpesaError::TransientError => {
                String::from_str(
                    "A recoverable error has occurred while performing an operation. Retrying is possible.",
                )
            },
            MpesaError::ParseError => {
                String::from_str("An error has occurred while serializing/ deserializing")
            },
            MpesaError::EnvironmentalVariableError(_) => {
                String::from_str("An error has occurred while retrieving an environmental variable")
            },
            MpesaError::EncryptionErrors(_) => {
                String::from_str("An error has occurred while generating security credentials")
            },
            MpesaError::Message(m) => String::from_str(m),
            MpesaError::BuilderError(b) => {
                let mut s = String::from_str("An error has occurred while building the request: ");
                let body = b.message();
                s.append(body.as_str());
                proof {
                    assert(s@ =~= self.spec_message());
                }
                s
            },
        }
    }

    pub open spec fn spec_message(&self) -> Seq<char> {
        match *self {
            MpesaError::Service(ref res) => "Service error: "@ + "requestID: "@
                + res.request_id@ + ", errorCode:"@ + res.error_code@ + ", errorMessage:"@
                + res.error_message@,
            MpesaError::NetworkError(_) => "An error has occurred while performing the http request"@,
            MpesaError::TransientError => "A recoverable error has occurred while performing an operation. Retrying is possible."@,
            MpesaError::ParseError => "An error has occurred while serializing/ deserializing"@,
            MpesaError::EnvironmentalVariableError(_) => "An error has occurred while retrieving an environmental variable"@,
            MpesaError::EncryptionErrors(_) => "An error has occurred while generating security credentials"@,
            MpesaError::Message(m) => m@,
            MpesaError::BuilderError(ref b) => "An error has occurred while building the request: "@
                + match *b {
                    BuilderError::UninitializedField(f) => "Field ["@ + f@ + "] is required"@,
                    BuilderError::ValidationError(ref s) => "Field ["@ + s@ + "] is invalid"@,
                },
        }
    }
}

} // verus!
