//! The error classifier: a pure decision table from a raw HTTP outcome
//! (status code, error body, embedded fresh token) to one taxonomy value.

use vstd::prelude::*;
use crate::error::RoboatError;
use crate::request::opt_view;

verus! {

/// The first entry of the top-level "errors" array of a Roblox error body,
/// as its numeric "code" and its "message" characters; `None` when the body
/// does not parse to that shape. A pure function of the body's characters.
pub uninterp spec fn spec_first_error(body: Seq<char>) -> Option<(u64, Seq<char>)>;

/// Relies on `serde_json::from_str` and the `serde_json::Value` accessors
/// `get`, `as_u64` and `as_str`: reads the first entry of the top-level
/// "errors" array of a Roblox error body as its numeric "code" and its
/// "message" (empty when the message field is absent or not a string).
#[verifier::external_body]
fn parse_first_error(body: &str) -> (r: Option<(u64, String)>)
    ensures
        match (r, spec_first_error(body@)) {
            (Option::Some(p), Option::Some(q)) => p.0 == q.0 && p.1@ == q.1,
            (Option::None, Option::None) => true,
            _ => false,
        },
{
    let v: serde_json::Value = serde_json::from_str(body).ok()?;
    let entry = v.get("errors")?.get(0)?;
    let code = entry.get("code")?.as_u64()?;
    let message = match entry.get("message").and_then(|m| m.as_str()) {
        Some(m) => m.to_string(),
        None => String::new(),
    };
    Some((code, message))
}

/// Whether the response's status is a success (2xx): the executor hands such
/// a response back to its caller and never classifies it as an error.
pub open spec fn spec_success(status: u16) -> bool {
    200 <= status < 300
}

/// The decision table of the classifier, as a relation between its inputs
/// and the taxonomy value it must produce. Rows, in order: 429 is the rate
/// limit; 500 a server fault; 400 a bad request (domain-specific error
/// shapes in a 400 body belong to the endpoint wrappers, not to this core);
/// on 401 a parsed error code of 0, an unparseable body or a code too large
/// for the taxonomy is an invalid credential, any other parsed code is
/// surfaced with its message; on 403 a response that embeds a fresh token
/// signals token invalidation and one without signals that no token was
/// returned; every other status is unidentified.
pub open spec fn spec_classified(
    status: u16,
    parsed: Option<(u64, Seq<char>)>,
    xcsrf: Option<Seq<char>>,
    e: RoboatError,
) -> bool {
    if status == 429 {
        e == RoboatError::TooManyRequests
    } else if status == 500 {
        e == RoboatError::InternalServerError
    } else if status == 400 {
        e == RoboatError::BadRequest
    } else if status == 401 {
        match parsed {
            Option::None => e == RoboatError::InvalidRoblosecurity,
            Option::Some(p) => {
                if p.0 == 0 || p.0 > u16::MAX {
                    e == RoboatError::InvalidRoblosecurity
                } else {
                    &&& e matches RoboatError::UnknownRobloxErrorCode { code, message }
                    &&& code == p.0
                    &&& message@ == p.1
                }
            },
        }
    } else if status == 403 {
        match xcsrf {
            Option::Some(t) => e matches RoboatError::InvalidXcsrf(x) && x@ == t,
            Option::None => e == RoboatError::XcsrfNotReturned,
        }
    } else {
        e == RoboatError::UnidentifiedStatusCode(status)
    }
}

/// The characters of an optional parsed (code, message) pair.
pub open spec fn parsed_view(p: Option<(u64, String)>) -> Option<(u64, Seq<char>)> {
    match p {
        Option::Some(q) => Option::Some((q.0, q.1@)),
        Option::None => Option::None,
    }
}

/// Classifies a failed attempt whose error body has already been parsed.
/// Total and side-effect-free: exactly the decision table.
pub fn classify_parsed(status: u16, parsed: Option<(u64, String)>, xcsrf: Option<String>) -> (e:
    RoboatError)
    ensures
        spec_classified(status, parsed_view(parsed), opt_view(xcsrf), e),
{
    if status == 429 {
        RoboatError::TooManyRequests
    } else if status == 500 {
        RoboatError::InternalServerError
    } else if status == 400 {
        RoboatError::BadRequest
    } else if status == 401 {
        match parsed {
            None => RoboatError::InvalidRoblosecurity,
            Some((code, message)) => {
                if code == 0 || code > u16::MAX as u64 {
                    RoboatError::InvalidRoblosecurity
                } else {
                    RoboatError::UnknownRobloxErrorCode { code: code as u16, message }
                }
            },
        }
    } else if status == 403 {
        match xcsrf {
            Some(token) => RoboatError::InvalidXcsrf(token),
            None => RoboatError::XcsrfNotReturned,
        }
    } else {
        RoboatError::UnidentifiedStatusCode(status)
    }
}

/// Classifies a failed attempt from its raw parts: parses the error body and
/// applies the decision table to the result.
pub fn classify(status: u16, body: &str, xcsrf: Option<String>) -> (e: RoboatError)
    ensures
        spec_classified(status, spec_first_error(body@), opt_view(xcsrf), e),
{
    let parsed = parse_first_error(body);
    classify_parsed(status, parsed, xcsrf)
}

} // verus!
