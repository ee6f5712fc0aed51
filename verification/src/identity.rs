//! Lazy resolution of the authenticated principal's numeric identity: one
//! authenticated call through the executor, cached in the session until the
//! credential is replaced.

use vstd::prelude::*;
use crate::error::RoboatError;
use crate::protocol::{authenticated_user_url, spec_authenticated_user_url};
use crate::request::{Method, RequestTemplate};
use crate::session::SessionState;

verus! {

/// The numeric "id" field of the authenticated-user body; `None` when the
/// body does not parse to that shape. A pure function of the body's
/// characters.
pub uninterp spec fn spec_user_id_of(body: Seq<char>) -> Option<u64>;

/// Relies on `serde_json::from_str` and the `serde_json::Value` accessors
/// `get` and `as_u64`: reads the numeric "id" field of the
/// authenticated-user body.
#[verifier::external_body]
fn parse_user_id(body: &str) -> (r: Option<u64>)
    ensures
        r == spec_user_id_of(body@),
{
    let v: serde_json::Value = serde_json::from_str(body).ok()?;
    v.get("id")?.as_u64()
}

/// What a caller of `resolved_identity` must do next.
pub enum IdentityStep {
    /// The identity is cached; no request is needed.
    Cached(u64),
    /// No identity is cached: execute this template with authentication and
    /// feed the successful body to `identity_from_body`.
    Fetch(RequestTemplate),
}

/// Begins an identity lookup. A cached identity is answered at once; an
/// empty cache — as after every credential replacement — yields the
/// authenticated-user request to execute, so a stale identity is never
/// served across a credential change.
pub fn identity_begin(session: &SessionState) -> (r: IdentityStep)
    ensures
        session.identity_view() matches Some(id) ==> r == IdentityStep::Cached(id),
        session.identity_view() is None ==> {
            &&& r matches IdentityStep::Fetch(t)
            &&& t.method == Method::Get
            &&& t.url@ == spec_authenticated_user_url()
            &&& t.headers@ == Seq::<(String, String)>::empty()
            &&& t.body is None
        },
{
    match session.cached_identity() {
        Some(id) => IdentityStep::Cached(id),
        None => IdentityStep::Fetch(
            RequestTemplate {
                method: Method::Get,
                url: authenticated_user_url().to_owned(),
                headers: Vec::new(),
                body: None,
            },
        ),
    }
}

/// Consumes the successful body of the authenticated-user request: a body
/// carrying a numeric id has it stored in the cache and returned; any other
/// body is a malformed response and leaves the session untouched.
pub fn identity_from_body(session: &mut SessionState, body: &str) -> (r: Result<u64, RoboatError>)
    ensures
        spec_user_id_of(body@) matches Some(id) ==> {
            &&& r matches Ok(i) && i == id
            &&& final(session).identity_view() == Some(id)
            &&& final(session).credential_view() == old(session).credential_view()
            &&& final(session).token_view() == old(session).token_view()
        },
        spec_user_id_of(body@) is None ==> {
            &&& r matches Err(e) && e == RoboatError::MalformedResponse
            &&& *final(session) == *old(session)
        },
{
    match parse_user_id(body) {
        Some(id) => {
            session.store_identity(id);
            Ok(id)
        },
        None => Err(RoboatError::MalformedResponse),
    }
}

} // verus!
