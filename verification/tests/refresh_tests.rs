use roboat::error::RoboatError;
use roboat::refresh::{refresh_begin, refresh_on_response, RefreshCoordinator};
use roboat::request::{Method, RawResponse};
use roboat::session::SessionState;

#[test]
fn refresh_needs_a_credential() {
    let session = SessionState::new();
    assert_eq!(refresh_begin(&session), Err(RoboatError::RoblosecurityNotSet));
}

#[test]
fn refresh_request_targets_the_issuance_endpoint() {
    let session = SessionState::with_credential("secret".to_string());
    let p = refresh_begin(&session).expect("a credential is set");
    assert_eq!(p.method, Method::Post);
    assert_eq!(p.url, "https://auth.roblox.com/v2/logout");
    assert!(p.headers.is_empty());
    assert_eq!(p.body, None);
    assert_eq!(p.credential.as_deref(), Some("secret"));
    assert_eq!(p.xcsrf, None);
}

#[test]
fn refresh_stores_and_returns_the_embedded_token() {
    let mut session = SessionState::with_credential("secret".to_string());
    let r = refresh_on_response(
        &mut session,
        RawResponse { status: 403, xcsrf: Some("FRESH".to_string()), body: String::new() },
    );
    assert_eq!(r, Ok("FRESH".to_string()));
    assert_eq!(session.token().as_deref(), Some("FRESH"));
}

#[test]
fn refresh_without_embedded_token_fails_classified() {
    let mut session = SessionState::with_credential("secret".to_string());
    session.set_token("KEEP".to_string());
    let r = refresh_on_response(
        &mut session,
        RawResponse { status: 403, xcsrf: None, body: String::new() },
    );
    assert_eq!(r, Err(RoboatError::XcsrfNotReturned));
    assert_eq!(session.token().as_deref(), Some("KEEP"));

    let r2 = refresh_on_response(
        &mut session,
        RawResponse { status: 429, xcsrf: None, body: String::new() },
    );
    assert_eq!(r2, Err(RoboatError::TooManyRequests));
}

#[test]
fn concurrent_refresh_demand_collapses_into_one_flight() {
    let mut c = RefreshCoordinator::new();
    let first = c.join();
    let second = c.join();
    let third = c.join();
    assert!(first);
    assert!(!second);
    assert!(!third);
    assert!(c.is_in_flight());
    assert_eq!(c.last_outcome(), None);

    let released = c.complete(Ok("FRESH".to_string()));
    assert_eq!(released, 3);
    assert!(!c.is_in_flight());

    // Every released waiter reads the very same outcome.
    assert_eq!(c.last_outcome(), Some(Ok("FRESH".to_string())));
    assert_eq!(c.last_outcome(), Some(Ok("FRESH".to_string())));
    assert_eq!(c.last_outcome(), Some(Ok("FRESH".to_string())));

    // Once the flight is over, new demand starts a new one and clears the
    // previous outcome.
    assert!(c.join());
    assert_eq!(c.last_outcome(), None);
}

#[test]
fn a_failed_flight_hands_every_waiter_the_same_failure() {
    let mut c = RefreshCoordinator::new();
    assert!(c.join());
    assert!(!c.join());
    let released = c.complete(Err(RoboatError::TooManyRequests));
    assert_eq!(released, 2);
    assert_eq!(c.last_outcome(), Some(Err(RoboatError::TooManyRequests)));
    assert_eq!(c.last_outcome(), Some(Err(RoboatError::TooManyRequests)));
}
