//! The authenticated-request executor: one logical call as a state machine.
//!
//! The executor owns every decision of the protocol — attaching the
//! credential and the current anti-forgery token, classifying a failed
//! attempt, storing a fresh token from a rejection, asking for a refresh,
//! and retrying exactly once — while the sends themselves are performed by
//! the application, which feeds each outcome back in. At most two sends are
//! ever requested for one logical call, and the retry always carries a
//! freshly read token, never the one that just failed.

use vstd::prelude::*;
use crate::classify::{classify, spec_classified, spec_first_error, spec_success};
use crate::error::RoboatError;
use crate::request::{opt_view, PreparedRequest, RawResponse, RequestTemplate};
use crate::session::SessionState;

verus! {

/// Where one logical call stands.
#[derive(Clone, Copy, Debug, PartialEq, Eq, Structural)]
pub enum ExecPhase {
    /// The first send has been requested; its outcome is awaited.
    AwaitingFirst,
    /// The first attempt was rejected without a fresh token; a refresh
    /// outcome is awaited.
    Refreshing,
    /// The single retry has been requested; its outcome is awaited.
    AwaitingRetry,
    /// The call is over; no further send will be requested.
    Finished,
}

/// What the executor asks the application to do next.
pub enum ExecAction {
    /// Perform this send and feed the outcome back.
    Send(PreparedRequest),
    /// Run the single-flight token refresh and feed its outcome back.
    Refresh,
    /// The call is over with this outcome.
    Finish(Result<RawResponse, RoboatError>),
}

/// Whether a prepared request carries exactly this template, credential and
/// token.
pub open spec fn prepared_for(
    p: PreparedRequest,
    t: RequestTemplate,
    credential: Option<Seq<char>>,
    xcsrf: Option<Seq<char>>,
) -> bool {
    &&& p.method == t.method
    &&& p.url == t.url
    &&& p.headers@ == t.headers@
    &&& p.body == t.body
    &&& opt_view(p.credential) == credential
    &&& opt_view(p.xcsrf) == xcsrf
}

/// The executor's bound: no logical call ever requests more than two sends
/// — the original attempt and the single retry — whatever its phase.
pub proof fn lemma_at_most_two_sends(ex: Execution)
    requires
        ex.wf(),
    ensures
        ex.sends_spec() <= 2,
{
}

/// One authenticated logical call in flight.
pub struct Execution {
    template: RequestTemplate,
    requires_auth: bool,
    phase: ExecPhase,
    sends: u8,
}

impl Execution {
    /// The template this call was begun with.
    pub closed spec fn template_spec(&self) -> RequestTemplate {
        self.template
    }

    /// Whether this call requires authentication.
    pub closed spec fn auth_spec(&self) -> bool {
        self.requires_auth
    }

    /// The current phase.
    pub closed spec fn phase_spec(&self) -> ExecPhase {
        self.phase
    }

    /// How many sends have been requested so far.
    pub closed spec fn sends_spec(&self) -> u8 {
        self.sends
    }

    /// The phase discipline: how many sends each phase implies. No state
    /// ever requests more than two sends.
    pub open spec fn wf(&self) -> bool {
        match self.phase_spec() {
            ExecPhase::AwaitingFirst => self.sends_spec() == 1,
            ExecPhase::Refreshing => self.sends_spec() == 1,
            ExecPhase::AwaitingRetry => self.sends_spec() == 2,
            ExecPhase::Finished => self.sends_spec() <= 2,
        }
    }

    /// The current phase, for the application's own checks.
    pub fn phase(&self) -> (r: ExecPhase)
        ensures
            r == self.phase_spec(),
    {
        self.phase
    }

    /// How many sends have been requested so far.
    pub fn sends(&self) -> (r: u8)
        ensures
            r == self.sends_spec(),
    {
        self.sends
    }

    /// The request for the current attempt: the template's data with the
    /// credential attached when the call requires authentication, and the
    /// session's current token attached when one is held.
    fn prepare_current(&self, session: &SessionState) -> (p: PreparedRequest)
        ensures
            prepared_for(
                p,
                self.template_spec(),
                if self.auth_spec() {
                    session.credential_view()
                } else {
                    None
                },
                session.token_view(),
            ),
    {
        let t = self.template.duplicate();
        PreparedRequest {
            method: t.method,
            url: t.url,
            headers: t.headers,
            body: t.body,
            credential: if self.requires_auth {
                session.credential()
            } else {
                None
            },
            xcsrf: session.token(),
        }
    }

    /// Begins one logical call. When the call requires authentication and no
    /// credential is set, it finishes immediately with `RoblosecurityNotSet`
    /// and no send is ever requested; otherwise the first send is requested
    /// with the credential and the current token attached.
    pub fn begin(template: RequestTemplate, requires_auth: bool, session: &SessionState) -> (r: (
        Execution,
        ExecAction,
    ))
        ensures
            r.0.wf(),
            r.0.template_spec() == template,
            r.0.auth_spec() == requires_auth,
            requires_auth && session.credential_view() is None ==> {
                &&& r.1 matches ExecAction::Finish(res)
                &&& res matches Err(e) && e == RoboatError::RoblosecurityNotSet
                &&& r.0.phase_spec() is Finished
                &&& r.0.sends_spec() == 0
            },
            !(requires_auth && session.credential_view() is None) ==> {
                &&& r.1 matches ExecAction::Send(p) && prepared_for(
                    p,
                    template,
                    if requires_auth {
                        session.credential_view()
                    } else {
                        None
                    },
                    session.token_view(),
                )
                &&& r.0.phase_spec() is AwaitingFirst
                &&& r.0.sends_spec() == 1
            },
    {
        if requires_auth && !session.has_credential() {
            let ex = Execution {
                template,
                requires_auth,
                phase: ExecPhase::Finished,
                sends: 0,
            };
            return (ex, ExecAction::Finish(Err(RoboatError::RoblosecurityNotSet)));
        }
        let ex = Execution {
            template,
            requires_auth,
            phase: ExecPhase::AwaitingFirst,
            sends: 1,
        };
        let p = ex.prepare_current(session);
        (ex, ExecAction::Send(p))
    }

    /// Feeds the outcome of a requested send back in.
    ///
    /// A success (2xx) finishes the call with the response, whichever
    /// attempt it answers. A first attempt rejected with a fresh token
    /// stores that token in the session and requests the single retry with
    /// it; one rejected on 403 without a token asks for a refresh; any other
    /// failure finishes the call with its classification. The outcome of the
    /// retry is final whatever it classifies to: no third send is ever
    /// requested.
    pub fn on_response(&mut self, session: &mut SessionState, response: RawResponse) -> (a:
        ExecAction)
        requires
            old(self).wf(),
            old(self).phase_spec() is AwaitingFirst || old(self).phase_spec() is AwaitingRetry,
        ensures
            final(self).wf(),
            final(self).template_spec() == old(self).template_spec(),
            final(self).auth_spec() == old(self).auth_spec(),
            spec_success(response.status) ==> {
                &&& a matches ExecAction::Finish(res)
                &&& res matches Ok(rr) && rr == response
                &&& final(self).phase_spec() is Finished
                &&& final(self).sends_spec() == old(self).sends_spec()
                &&& *final(session) == *old(session)
            },
            !spec_success(response.status) && old(self).phase_spec() is AwaitingFirst ==> {
                let xv = opt_view(response.xcsrf);
                &&& response.status == 403 && xv is Some ==> {
                    &&& a matches ExecAction::Send(p) && prepared_for(
                        p,
                        old(self).template_spec(),
                        if old(self).auth_spec() {
                            final(session).credential_view()
                        } else {
                            None
                        },
                        xv,
                    )
                    &&& final(session).token_view() == xv
                    &&& final(session).credential_view() == old(session).credential_view()
                    &&& final(session).identity_view() == old(session).identity_view()
                    &&& final(self).phase_spec() is AwaitingRetry
                    &&& final(self).sends_spec() == 2
                }
                &&& response.status == 403 && xv is None ==> {
                    &&& a matches ExecAction::Refresh
                    &&& final(self).phase_spec() is Refreshing
                    &&& final(self).sends_spec() == 1
                    &&& *final(session) == *old(session)
                }
                &&& response.status != 403 ==> {
                    &&& a matches ExecAction::Finish(res)
                    &&& res matches Err(e) && spec_classified(
                        response.status,
                        spec_first_error(response.body@),
                        xv,
                        e,
                    )
                    &&& final(self).phase_spec() is Finished
                    &&& final(self).sends_spec() == 1
                    &&& *final(session) == *old(session)
                }
            },
            // Propagation policy: the two token signals are recovered
            // locally on a first attempt — they trigger the retry or the
            // refresh — and reach a caller only from the retry itself.
            old(self).phase_spec() is AwaitingFirst ==> !(a matches ExecAction::Finish(res)
                && res matches Err(e) && (e matches RoboatError::InvalidXcsrf(_) || e
                == RoboatError::XcsrfNotReturned)),
            !spec_success(response.status) && old(self).phase_spec() is AwaitingRetry ==> {
                &&& a matches ExecAction::Finish(res)
                &&& res matches Err(e) && spec_classified(
                    response.status,
                    spec_first_error(response.body@),
                    opt_view(response.xcsrf),
                    e,
                )
                &&& final(self).phase_spec() is Finished
                &&& final(self).sends_spec() == 2
                &&& *final(session) == *old(session)
            },
    {
        let RawResponse { status, xcsrf, body } = response;
        if 200 <= status && status < 300 {
            self.phase = ExecPhase::Finished;
            return ExecAction::Finish(Ok(RawResponse { status, xcsrf, body }));
        }
        let e = classify(status, body.as_str(), xcsrf);
        match self.phase {
            ExecPhase::AwaitingFirst => {
                match e {
                    RoboatError::InvalidXcsrf(token) => {
                        session.set_token(token);
                        let p = self.prepare_current(session);
                        self.phase = ExecPhase::AwaitingRetry;
                        self.sends = 2;
                        ExecAction::Send(p)
                    },
                    RoboatError::XcsrfNotReturned => {
                        self.phase = ExecPhase::Refreshing;
                        ExecAction::Refresh
                    },
                    other => {
                        self.phase = ExecPhase::Finished;
                        ExecAction::Finish(Err(other))
                    },
                }
            },
            _ => {
                self.phase = ExecPhase::Finished;
                ExecAction::Finish(Err(e))
            },
        }
    }

    /// Feeds the outcome of the requested token refresh back in. On success
    /// the single retry is requested with the session's freshly stored
    /// token; on failure the call finishes with the refresher's own error,
    /// which every concurrent waiter receives alike.
    pub fn on_refresh_outcome(&mut self, session: &SessionState, outcome: Result<
        String,
        RoboatError,
    >) -> (a: ExecAction)
        requires
            old(self).wf(),
            old(self).phase_spec() is Refreshing,
        ensures
            final(self).wf(),
            final(self).template_spec() == old(self).template_spec(),
            final(self).auth_spec() == old(self).auth_spec(),
            outcome is Ok ==> {
                &&& a matches ExecAction::Send(p) && prepared_for(
                    p,
                    old(self).template_spec(),
                    if old(self).auth_spec() {
                        session.credential_view()
                    } else {
                        None
                    },
                    session.token_view(),
                )
                &&& final(self).phase_spec() is AwaitingRetry
                &&& final(self).sends_spec() == 2
            },
            outcome matches Err(e) ==> {
                &&& a matches ExecAction::Finish(res)
                &&& res matches Err(e2) && e2 == e
                &&& final(self).phase_spec() is Finished
                &&& final(self).sends_spec() == 1
            },
    {
        match outcome {
            Ok(_) => {
                let p = self.prepare_current(session);
                self.phase = ExecPhase::AwaitingRetry;
                self.sends = 2;
                ExecAction::Send(p)
            },
            Err(e) => {
                self.phase = ExecPhase::Finished;
                ExecAction::Finish(Err(e))
            },
        }
    }

    /// Records a transport-level failure of a requested send. The call
    /// finishes with the transport's description; this layer never retries a
    /// transport failure.
    pub fn on_transport_failure(&mut self, detail: String) -> (a: ExecAction)
        requires
            old(self).wf(),
            old(self).phase_spec() is AwaitingFirst || old(self).phase_spec() is AwaitingRetry,
        ensures
            final(self).wf(),
            final(self).template_spec() == old(self).template_spec(),
            final(self).auth_spec() == old(self).auth_spec(),
            final(self).phase_spec() is Finished,
            final(self).sends_spec() == old(self).sends_spec(),
            a matches ExecAction::Finish(res) && res matches Err(e) && e
                == RoboatError::ReqwestError(detail),
    {
        self.phase = ExecPhase::Finished;
        ExecAction::Finish(Err(RoboatError::ReqwestError(detail)))
    }
}

} // verus!
