//! The error taxonomy: the canonical classification of every failed request.

use vstd::prelude::*;

verus! {

/// The universal error used in this crate. Every failed request attempt is
/// classified into exactly one of these kinds.
///
/// `InvalidXcsrf` and `XcsrfNotReturned` are recovered locally by the
/// executor (they trigger a token refresh and a single retry); they reach a
/// caller only when they recur on the retry itself, and a caller should then
/// treat them as non-retryable.
#[derive(Clone, Debug, PartialEq, Eq)]
pub enum RoboatError {
    /// Used when an endpoint returns status code 429.
    TooManyRequests,
    /// Used when an endpoint returns status code 500.
    InternalServerError,
    /// Used when an endpoint returns status code 400 and does not embed an
    /// error. This is used when the server cannot process the data sent,
    /// whether it be because it is in the wrong format or it contains too
    /// much data.
    BadRequest,
    /// Returned when the user does not have a valid roblosecurity, or does
    /// not have authorization to access the endpoint.
    ///
    /// This is also used as the backup error when an endpoint returns a 401
    /// status code but the error cannot be parsed from the response.
    ///
    /// Roblox error code 0.
    InvalidRoblosecurity,
    /// Returned when the endpoint returns a 401 status code, but the error
    /// response contains an unknown Roblox error code.
    UnknownRobloxErrorCode {
        /// The error code (not status code) returned by roblox.
        code: u16,
        /// The error message returned by roblox.
        message: String,
    },
    /// Used when no roblosecurity is set, on an endpoint that requires it.
    RoblosecurityNotSet,
    /// Used for any status codes that do not fit any enum variants of this
    /// error.
    UnidentifiedStatusCode(u16),
    /// Used when the response from an API endpoint is malformed.
    MalformedResponse,
    /// Used when an endpoint rejects a request due to an invalid xcsrf.
    /// Mostly used internally: the fresh xcsrf embedded in the rejection is
    /// carried in the error so the retry path can read it.
    InvalidXcsrf(String),
    /// Used when an endpoint returns a 403 status code, but the response
    /// does not contain a new xcsrf.
    XcsrfNotReturned,
    /// Used for any transport-level failure (connection, TLS, timeout),
    /// carrying the transport's own description of the fault.
    ReqwestError(String),
}

impl RoboatError {
    /// A copy of the error, equal to the original.
    pub fn duplicate(&self) -> (r: Self)
        ensures
            r == *self,
    {
        match self {
            RoboatError::TooManyRequests => RoboatError::TooManyRequests,
            RoboatError::InternalServerError => RoboatError::InternalServerError,
            RoboatError::BadRequest => RoboatError::BadRequest,
            RoboatError::InvalidRoblosecurity => RoboatError::InvalidRoblosecurity,
            RoboatError::UnknownRobloxErrorCode { code, message } => {
                RoboatError::UnknownRobloxErrorCode { code: *code, message: message.clone() }
            },
            RoboatError::RoblosecurityNotSet => RoboatError::RoblosecurityNotSet,
            RoboatError::UnidentifiedStatusCode(c) => RoboatError::UnidentifiedStatusCode(*c),
            RoboatError::MalformedResponse => RoboatError::MalformedResponse,
            RoboatError::InvalidXcsrf(t) => RoboatError::InvalidXcsrf(t.clone()),
            RoboatError::XcsrfNotReturned => RoboatError::XcsrfNotReturned,
            RoboatError::ReqwestError(d) => RoboatError::ReqwestError(d.clone()),
        }
    }
}

impl Default for RoboatError {
    /// The default error kind is the rate-limit signal.
    fn default() -> (r: Self)
        ensures
            r == RoboatError::TooManyRequests,
    {
        RoboatError::TooManyRequests
    }
}

} // verus!
