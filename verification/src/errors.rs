//! The error taxonomy of the rewriting core.  Every hard error aborts the
//! whole rewrite and dispatch for its request; no partially rewritten request
//! is ever forwarded.
use vstd::prelude::*;

verus! {

/// The class a hard error surfaces as to the proxy's own caller.
#[derive(Clone, Copy, Debug, PartialEq, Eq, Structural)]
pub enum ErrorClass {
    /// The inbound request itself, or the upstream's own rejection of it,
    /// was malformed.
    BadRequest,
    /// The inbound request carried no usable credential.
    Unauthorized,
    /// The proxy failed on its own side to obtain something it needed.
    Internal,
}

/// Every hard error the rewriting core can raise.
#[derive(Clone, Copy, Debug, PartialEq, Eq, Structural)]
pub enum RewriteError {
    /// The conversation or dashboard endpoint was called without a body.
    BodyRequired,
    /// The body is not valid JSON.
    InvalidJson,
    /// The body is JSON, but its top-level value is not an object.
    BodyMustBeJsonObject,
    /// The conversation body has no string `model` field.
    ModelRequired,
    /// The Authorization header carries no bearer credential.
    AccessTokenRequired,
    /// The `model` field names no recognized model family.
    InvalidModel,
    /// A value to be injected cannot form a legal HTTP header value.
    InvalidHeaderValue,
    /// The session-id cache's get-or-init call failed.
    SessionCacheFailed,
    /// The sentinel fetch failed at the transport level.
    SentinelTransport,
    /// The sentinel endpoint answered with a non-success status.
    SentinelRejected,
    /// The sentinel endpoint's response body was not valid JSON.
    SentinelUnparsable,
    /// The challenge-token broker failed; its error is propagated unchanged
    /// by the driver.
    ChallengeBrokerFailed,
}

impl RewriteError {
    /// The class each error surfaces as.  Transport-level sentinel failures
    /// are internal; content-level ones (non-success status, unparsable
    /// body) surface as bad-request so the caller sees the upstream's own
    /// rejection.
    pub open spec fn spec_class(self) -> ErrorClass {
        match self {
            RewriteError::BodyRequired => ErrorClass::BadRequest,
            RewriteError::InvalidJson => ErrorClass::BadRequest,
            RewriteError::BodyMustBeJsonObject => ErrorClass::BadRequest,
            RewriteError::ModelRequired => ErrorClass::BadRequest,
            RewriteError::AccessTokenRequired => ErrorClass::Unauthorized,
            RewriteError::InvalidModel => ErrorClass::BadRequest,
            RewriteError::InvalidHeaderValue => ErrorClass::BadRequest,
            RewriteError::SessionCacheFailed => ErrorClass::Internal,
            RewriteError::SentinelTransport => ErrorClass::Internal,
            RewriteError::SentinelRejected => ErrorClass::BadRequest,
            RewriteError::SentinelUnparsable => ErrorClass::BadRequest,
            RewriteError::ChallengeBrokerFailed => ErrorClass::Internal,
        }
    }

    /// Executable form of `spec_class`.
    pub fn class(&self) -> (r: ErrorClass)
        ensures
            r == self.spec_class(),
    {
        match self {
            RewriteError::BodyRequired => ErrorClass::BadRequest,
            RewriteError::InvalidJson => ErrorClass::BadRequest,
            RewriteError::BodyMustBeJsonObject => ErrorClass::BadRequest,
            RewriteError::ModelRequired => ErrorClass::BadRequest,
            RewriteError::AccessTokenRequired => ErrorClass::Unauthorized,
            RewriteError::InvalidModel => ErrorClass::BadRequest,
            RewriteError::InvalidHeaderValue => ErrorClass::BadRequest,
            RewriteError::SessionCacheFailed => ErrorClass::Internal,
            RewriteError::SentinelTransport => ErrorClass::Internal,
            RewriteError::SentinelRejected => ErrorClass::BadRequest,
            RewriteError::SentinelUnparsable => ErrorClass::BadRequest,
            RewriteError::ChallengeBrokerFailed => ErrorClass::Internal,
        }
    }

    /// A short description of the error.
    pub open spec fn spec_message(self) -> Seq<char> {
        match self {
            RewriteError::BodyRequired => "body required"@,
            RewriteError::InvalidJson => "body is not valid JSON"@,
            RewriteError::BodyMustBeJsonObject => "body must be a JSON object"@,
            RewriteError::ModelRequired => "model required"@,
            RewriteError::AccessTokenRequired => "access token required"@,
            RewriteError::InvalidModel => "unrecognized model"@,
            RewriteError::InvalidHeaderValue => "invalid header value"@,
            RewriteError::SessionCacheFailed => "session id acquisition failed"@,
            RewriteError::SentinelTransport => "sentinel request failed"@,
            RewriteError::SentinelRejected => "sentinel endpoint rejected the request"@,
            RewriteError::SentinelUnparsable => "sentinel response was not valid JSON"@,
            RewriteError::ChallengeBrokerFailed => "challenge token acquisition failed"@,
        }
    }

    /// Executable form of `spec_message`.
    pub fn message(&self) -> (r: &'static str)
        ensures
            r@ == self.spec_message(),
    {
        match self {
            RewriteError::BodyRequired => "body required",
            RewriteError::InvalidJson => "body is not valid JSON",
            RewriteError::BodyMustBeJsonObject => "body must be a JSON object",
            RewriteError::ModelRequired => "model required",
            RewriteError::AccessTokenRequired => "access token required",
            RewriteError::InvalidModel => "unrecognized model",
            RewriteError::InvalidHeaderValue => "invalid header value",
            RewriteError::SessionCacheFailed => "session id acquisition failed",
            RewriteError::SentinelTransport => "sentinel request failed",
            RewriteError::SentinelRejected => "sentinel endpoint rejected the request",
            RewriteError::SentinelUnparsable => "sentinel response was not valid JSON",
            RewriteError::ChallengeBrokerFailed => "challenge token acquisition failed",
        }
    }
}

} // verus!
