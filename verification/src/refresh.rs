//! The token refresher: the dedicated request that yields a fresh
//! anti-forgery token, and the single-flight coordination that collapses
//! concurrent refresh demand into one in-flight refresh.

use vstd::prelude::*;
use crate::classify::{classify, spec_classified, spec_first_error};
use crate::error::RoboatError;
use crate::protocol::{spec_xcsrf_refresh_url, xcsrf_refresh_url};
use crate::request::{opt_view, Method, PreparedRequest, RawResponse};
use crate::session::SessionState;

verus! {

/// Builds the dedicated token-issuance request: a bare authenticated send to
/// the refresh endpoint, which by the service's convention answers 403 with
/// a fresh token embedded. Fails with `RoblosecurityNotSet` when no
/// credential is held, since the refresh endpoint itself requires one.
pub fn refresh_begin(session: &SessionState) -> (r: Result<PreparedRequest, RoboatError>)
    ensures
        session.credential_view() is None ==> (r matches Err(e) && e
            == RoboatError::RoblosecurityNotSet),
        session.credential_view() is Some ==> {
            &&& r matches Ok(p)
            &&& p.method == Method::Post
            &&& p.url@ == spec_xcsrf_refresh_url()
            &&& p.headers@ == Seq::<(String, String)>::empty()
            &&& p.body is None
            &&& opt_view(p.credential) == session.credential_view()
            &&& p.xcsrf is None
        },
{
    match session.credential() {
        None => Err(RoboatError::RoblosecurityNotSet),
        Some(credential) => Ok(
            PreparedRequest {
                method: Method::Post,
                url: xcsrf_refresh_url().to_owned(),
                headers: Vec::new(),
                body: None,
                credential: Some(credential),
                xcsrf: None,
            },
        ),
    }
}

/// Consumes the refresh response. A response that embeds a fresh token —
/// whatever its status, though the convention is 403 — has that token stored
/// in the session wholesale and returned; one without a token leaves the
/// session untouched and fails with the response's own classification, so a
/// 403 without a token surfaces as `XcsrfNotReturned`.
pub fn refresh_on_response(session: &mut SessionState, response: RawResponse) -> (r: Result<
    String,
    RoboatError,
>)
    ensures
        response.xcsrf matches Some(t) ==> {
            &&& r matches Ok(token) && token@ == t@
            &&& final(session).token_view() == Some(t@)
            &&& final(session).credential_view() == old(session).credential_view()
            &&& final(session).identity_view() == old(session).identity_view()
        },
        response.xcsrf is None ==> {
            &&& r matches Err(e) && spec_classified(
                response.status,
                spec_first_error(response.body@),
                opt_view(response.xcsrf),
                e,
            )
            &&& *final(session) == *old(session)
        },
{
    let RawResponse { status, xcsrf, body } = response;
    match xcsrf {
        Some(token) => {
            session.set_token(token.clone());
            Ok(token)
        },
        None => Err(classify(status, body.as_str(), None)),
    }
}

/// The single-flight slot that collapses concurrent refresh demand into one
/// in-flight refresh. Callers that find a refresh already in flight wait for
/// its one outcome instead of starting their own, and every waiter of one
/// flight reads the very same outcome; an application holds one coordinator
/// per session, behind the same lock.
pub struct RefreshCoordinator {
    in_flight: bool,
    waiters: u64,
    outcome: Option<Result<String, RoboatError>>,
}

impl RefreshCoordinator {
    /// Whether a refresh is in flight.
    pub closed spec fn in_flight_spec(&self) -> bool {
        self.in_flight
    }

    /// How many callers await the in-flight refresh, the leader included.
    pub closed spec fn waiters_spec(&self) -> u64 {
        self.waiters
    }

    /// The outcome of the last completed flight, cleared when a new one
    /// starts.
    pub closed spec fn outcome_spec(&self) -> Option<Result<String, RoboatError>> {
        self.outcome
    }

    /// An idle coordinator: nothing in flight, nobody waiting, no outcome.
    pub fn new() -> (c: Self)
        ensures
            !c.in_flight_spec(),
            c.waiters_spec() == 0,
            c.outcome_spec() is None,
    {
        RefreshCoordinator { in_flight: false, waiters: 0, outcome: None }
    }

    /// Whether a refresh is in flight.
    pub fn is_in_flight(&self) -> (b: bool)
        ensures
            b == self.in_flight_spec(),
    {
        self.in_flight
    }

    /// How many callers await the in-flight refresh, the leader included.
    pub fn waiters(&self) -> (r: u64)
        ensures
            r == self.waiters_spec(),
    {
        self.waiters
    }

    /// Announces one caller's demand for a refresh. The caller leads — must
    /// itself perform the refresh — exactly when none was in flight; every
    /// later caller joins the same in-flight refresh as a waiter. A leading
    /// join opens a new flight, so the previous outcome is cleared.
    pub fn join(&mut self) -> (leader: bool)
        requires
            old(self).waiters_spec() < u64::MAX,
        ensures
            leader == !old(self).in_flight_spec(),
            final(self).in_flight_spec(),
            final(self).waiters_spec() == old(self).waiters_spec() + 1,
            final(self).outcome_spec() == if leader {
                None::<Result<String, RoboatError>>
            } else {
                old(self).outcome_spec()
            },
    {
        let leader = !self.in_flight;
        if leader {
            self.outcome = None;
        }
        self.in_flight = true;
        self.waiters = self.waiters + 1;
        leader
    }

    /// Ends the in-flight refresh with its one outcome: the slot is idle
    /// again, and every waiter is released to read that same outcome.
    pub fn complete(&mut self, outcome: Result<String, RoboatError>) -> (released: u64)
        requires
            old(self).in_flight_spec(),
        ensures
            !final(self).in_flight_spec(),
            final(self).waiters_spec() == 0,
            released == old(self).waiters_spec(),
            final(self).outcome_spec() == Some(outcome),
    {
        self.in_flight = false;
        let released = self.waiters;
        self.waiters = 0;
        self.outcome = Some(outcome);
        released
    }

    /// The one outcome of the last completed flight, as every released
    /// waiter reads it: each gets a value equal to the same stored outcome,
    /// or the same failure.
    pub fn last_outcome(&self) -> (r: Option<Result<String, RoboatError>>)
        ensures
            r == self.outcome_spec(),
    {
        match &self.outcome {
            None => None,
            Some(Ok(token)) => Some(Ok(token.clone())),
            Some(Err(e)) => Some(Err(e.duplicate())),
        }
    }
}

/// How many of `n` consecutive `join` calls lead, when the first of them
/// finds the slot as `in_flight0` says and no completion comes in between:
/// each call after the first finds the slot occupied.
pub open spec fn spec_leaders_among(n: nat, in_flight0: bool) -> nat
    decreases n,
{
    if n == 0 {
        0
    } else {
        (if in_flight0 {
            0nat
        } else {
            1nat
        }) + spec_leaders_among((n - 1) as nat, true)
    }
}

/// Single-flight law: when any number of callers discover a missing token
/// together — `n` joins on an idle slot, with the refresh completing only
/// after all have joined — exactly one of them performs the refresh; on an
/// occupied slot, none does.
pub proof fn lemma_single_flight(n: nat)
    requires
        n >= 1,
    ensures
        spec_leaders_among(n, false) == 1,
        spec_leaders_among(n, true) == 0,
    decreases n,
{
    if n == 1 {
        assert(spec_leaders_among(0, true) == 0);
    } else {
        lemma_single_flight((n - 1) as nat);
    }
}

} // verus!
