use roboat::error::RoboatError;
use roboat::executor::{ExecAction, ExecPhase, Execution};
use roboat::request::{Method, RawResponse, RequestTemplate};
use roboat::session::SessionState;

fn template() -> RequestTemplate {
    RequestTemplate {
        method: Method::Post,
        url: "https://economy.roblox.com/v1/purchases".to_string(),
        headers: vec![("content-type".to_string(), "application/json;charset=utf-8".to_string())],
        body: Some("{\"price\":0}".to_string()),
    }
}

fn response(status: u16, xcsrf: Option<&str>, body: &str) -> RawResponse {
    RawResponse { status, xcsrf: xcsrf.map(|t| t.to_string()), body: body.to_string() }
}

#[test]
fn auth_without_credential_fails_without_any_send() {
    let session = SessionState::new();
    let (ex, action) = Execution::begin(template(), true, &session);
    match action {
        ExecAction::Finish(Err(e)) => assert_eq!(e, RoboatError::RoblosecurityNotSet),
        _ => panic!("expected an immediate failure"),
    }
    assert_eq!(ex.sends(), 0);
    assert_eq!(ex.phase(), ExecPhase::Finished);
}

#[test]
fn first_send_carries_credential_and_current_token() {
    let mut session = SessionState::with_credential("secret".to_string());
    session.set_token("OLD".to_string());
    let (ex, action) = Execution::begin(template(), true, &session);
    match action {
        ExecAction::Send(p) => {
            assert_eq!(p.method, Method::Post);
            assert_eq!(p.url, "https://economy.roblox.com/v1/purchases");
            assert_eq!(p.headers.len(), 1);
            assert_eq!(p.body.as_deref(), Some("{\"price\":0}"));
            assert_eq!(p.credential.as_deref(), Some("secret"));
            assert_eq!(p.xcsrf.as_deref(), Some("OLD"));
        }
        _ => panic!("expected a send"),
    }
    assert_eq!(ex.sends(), 1);
}

#[test]
fn unauthenticated_send_carries_no_credential() {
    let session = SessionState::new();
    let (ex, action) = Execution::begin(template(), false, &session);
    match action {
        ExecAction::Send(p) => {
            assert_eq!(p.credential, None);
            assert_eq!(p.xcsrf, None);
        }
        _ => panic!("expected a send"),
    }
    assert_eq!(ex.sends(), 1);
}

#[test]
fn token_invalidation_triggers_exactly_one_retry_with_fresh_token() {
    let mut session = SessionState::with_credential("secret".to_string());
    session.set_token("STALE".to_string());
    let (mut ex, action) = Execution::begin(template(), true, &session);
    assert!(matches!(action, ExecAction::Send(_)));

    let a2 = ex.on_response(&mut session, response(403, Some("FRESH"), ""));
    match a2 {
        ExecAction::Send(p) => {
            assert_eq!(p.xcsrf.as_deref(), Some("FRESH"));
            assert_eq!(p.credential.as_deref(), Some("secret"));
            assert_eq!(p.url, "https://economy.roblox.com/v1/purchases");
        }
        _ => panic!("expected the retry send"),
    }
    assert_eq!(session.token().as_deref(), Some("FRESH"));
    assert_eq!(ex.sends(), 2);

    // A second invalidation is surfaced as-is: no third attempt.
    let a3 = ex.on_response(&mut session, response(403, Some("AGAIN"), ""));
    match a3 {
        ExecAction::Finish(Err(e)) => assert_eq!(e, RoboatError::InvalidXcsrf("AGAIN".to_string())),
        _ => panic!("expected the call to finish"),
    }
    assert_eq!(ex.sends(), 2);
    assert_eq!(ex.phase(), ExecPhase::Finished);
}

#[test]
fn token_harvested_then_success_body_returned() {
    let mut session = SessionState::with_credential("secret".to_string());
    let (mut ex, action) = Execution::begin(template(), true, &session);
    match action {
        ExecAction::Send(p) => assert_eq!(p.xcsrf, None),
        _ => panic!("expected a send"),
    }

    let a2 = ex.on_response(&mut session, response(403, Some("ABC"), ""));
    match a2 {
        ExecAction::Send(p) => assert_eq!(p.xcsrf.as_deref(), Some("ABC")),
        _ => panic!("expected the retry send"),
    }

    let a3 = ex.on_response(&mut session, response(200, None, "{\"id\":42}"));
    match a3 {
        ExecAction::Finish(Ok(rr)) => {
            assert_eq!(rr.status, 200);
            assert_eq!(rr.body, "{\"id\":42}");
        }
        _ => panic!("expected the successful response"),
    }
    assert_eq!(session.token().as_deref(), Some("ABC"));
    assert_eq!(ex.sends(), 2);
}

#[test]
fn rate_limit_finishes_with_zero_retries_and_token_unchanged() {
    let mut session = SessionState::with_credential("secret".to_string());
    session.set_token("KEEP".to_string());
    let (mut ex, _) = Execution::begin(template(), true, &session);
    let a = ex.on_response(&mut session, response(429, None, ""));
    match a {
        ExecAction::Finish(Err(e)) => assert_eq!(e, RoboatError::TooManyRequests),
        _ => panic!("expected the call to finish"),
    }
    assert_eq!(ex.sends(), 1);
    assert_eq!(session.token().as_deref(), Some("KEEP"));
}

#[test]
fn invalid_credential_body_finishes_with_invalid_roblosecurity() {
    let mut session = SessionState::with_credential("secret".to_string());
    let (mut ex, _) = Execution::begin(template(), true, &session);
    let a = ex.on_response(&mut session, response(401, None, "{\"errors\":[{\"code\":0}]}"));
    match a {
        ExecAction::Finish(Err(e)) => assert_eq!(e, RoboatError::InvalidRoblosecurity),
        _ => panic!("expected the call to finish"),
    }
}

#[test]
fn missing_token_on_403_asks_for_refresh_then_retries() {
    let mut session = SessionState::with_credential("secret".to_string());
    let (mut ex, _) = Execution::begin(template(), true, &session);
    let a = ex.on_response(&mut session, response(403, None, ""));
    assert!(matches!(a, ExecAction::Refresh));
    assert_eq!(ex.phase(), ExecPhase::Refreshing);
    assert_eq!(ex.sends(), 1);

    session.set_token("NEW".to_string());
    let a2 = ex.on_refresh_outcome(&session, Ok("NEW".to_string()));
    match a2 {
        ExecAction::Send(p) => assert_eq!(p.xcsrf.as_deref(), Some("NEW")),
        _ => panic!("expected the retry send"),
    }
    assert_eq!(ex.sends(), 2);
}

#[test]
fn refresh_failure_is_surfaced_to_the_call() {
    let mut session = SessionState::with_credential("secret".to_string());
    let (mut ex, _) = Execution::begin(template(), true, &session);
    let a = ex.on_response(&mut session, response(403, None, ""));
    assert!(matches!(a, ExecAction::Refresh));
    let a2 = ex.on_refresh_outcome(&session, Err(RoboatError::TooManyRequests));
    match a2 {
        ExecAction::Finish(Err(e)) => assert_eq!(e, RoboatError::TooManyRequests),
        _ => panic!("expected the call to finish"),
    }
}

#[test]
fn transport_failure_finishes_without_retry() {
    let session = SessionState::with_credential("secret".to_string());
    let (mut ex, _) = Execution::begin(template(), true, &session);
    let a = ex.on_transport_failure("connection reset".to_string());
    match a {
        ExecAction::Finish(Err(e)) => {
            assert_eq!(e, RoboatError::ReqwestError("connection reset".to_string()))
        }
        _ => panic!("expected the call to finish"),
    }
    assert_eq!(ex.sends(), 1);
    assert_eq!(ex.phase(), ExecPhase::Finished);
}
