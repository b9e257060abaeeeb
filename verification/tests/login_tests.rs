use trackfetch::login::{
    check_cookies, Cookie, LoginAction, LoginError, LoginEvent, LoginOutcome, LoginSession,
    COOKIE_JAR_URL, SIGN_IN_URL, TARGET_HOST, TOKEN_COOKIE,
};

fn cookie(name: &str, value: &str) -> Cookie {
    Cookie { name: name.to_string(), value: value.to_string() }
}

fn waiting_session() -> LoginSession {
    let mut session = LoginSession::new();
    session.advance(LoginEvent::LoginRequested);
    session.advance(LoginEvent::SurfaceReady);
    session
}

#[test]
fn provider_constants() {
    assert_eq!(SIGN_IN_URL, "https://soundcloud.com/signin");
    assert_eq!(TARGET_HOST, "soundcloud.com");
    assert_eq!(COOKIE_JAR_URL, "https://soundcloud.com");
    assert_eq!(TOKEN_COOKIE, "oauth_token");
}

#[test]
fn check_cookies_finds_the_token() {
    let jar =
        vec![cookie("sc_anonymous_id", "1"), cookie("oauth_token", "2-abc"), cookie("x", "y")];
    assert_eq!(check_cookies(&jar), Some("2-abc".to_string()));
}

#[test]
fn check_cookies_takes_the_first_of_two_tokens() {
    let jar = vec![cookie("oauth_token", "first"), cookie("oauth_token", "second")];
    assert_eq!(check_cookies(&jar), Some("first".to_string()));
}

#[test]
fn check_cookies_without_token() {
    assert_eq!(check_cookies(&vec![cookie("oauth_token2", "a"), cookie("OAUTH_TOKEN", "b")]), None);
    assert_eq!(check_cookies(&Vec::new()), None);
}

#[test]
fn login_request_opens_the_sign_in_surface() {
    let mut session = LoginSession::new();
    assert_eq!(session, LoginSession::Idle);
    let action = session.advance(LoginEvent::LoginRequested);
    assert_eq!(
        action,
        LoginAction::OpenSurface { url: "https://soundcloud.com/signin".to_string() }
    );
    assert_eq!(session, LoginSession::WindowOpening);
    assert_eq!(session.advance(LoginEvent::SurfaceReady), LoginAction::Nothing);
    assert_eq!(session, LoginSession::AwaitingTargetHost);
}

#[test]
fn second_login_request_is_rejected_and_changes_nothing() {
    let mut opening = LoginSession::new();
    opening.advance(LoginEvent::LoginRequested);
    assert_eq!(
        opening.advance(LoginEvent::LoginRequested),
        LoginAction::Reject(LoginError::AlreadyInProgress)
    );
    assert_eq!(opening, LoginSession::WindowOpening);

    let mut waiting = waiting_session();
    assert_eq!(
        waiting.advance(LoginEvent::LoginRequested),
        LoginAction::Reject(LoginError::AlreadyInProgress)
    );
    assert_eq!(waiting, LoginSession::AwaitingTargetHost);

    let mut resolved = waiting_session();
    resolved.advance(LoginEvent::TokenLookup(Some("t".to_string())));
    assert_eq!(
        resolved.advance(LoginEvent::LoginRequested),
        LoginAction::Reject(LoginError::AlreadyInProgress)
    );
    assert_eq!(resolved, LoginSession::Resolved(LoginOutcome::Token("t".to_string())));
}

#[test]
fn target_host_calls_for_a_look_at_the_cookies() {
    let mut session = waiting_session();
    assert_eq!(
        session.advance(LoginEvent::HostObserved(Some("soundcloud.com".to_string()))),
        LoginAction::InspectCookies { url: "https://soundcloud.com".to_string() }
    );
    assert_eq!(session, LoginSession::AwaitingTargetHost);
    assert_eq!(
        session.advance(LoginEvent::HostObserved(Some("accounts.google.com".to_string()))),
        LoginAction::Nothing
    );
    assert_eq!(
        session.advance(LoginEvent::HostObserved(Some("m.soundcloud.com".to_string()))),
        LoginAction::Nothing
    );
    assert_eq!(session.advance(LoginEvent::HostObserved(None)), LoginAction::Nothing);
    assert_eq!(session, LoginSession::AwaitingTargetHost);
}

#[test]
fn location_is_parsed_for_its_host() {
    let mut session = waiting_session();
    assert_eq!(
        session.on_location_changed("https://soundcloud.com/discover?x=1#top"),
        LoginAction::InspectCookies { url: "https://soundcloud.com".to_string() }
    );
    assert_eq!(
        session.on_location_changed("https://user:pw@SoundCloud.com:443/signin"),
        LoginAction::InspectCookies { url: "https://soundcloud.com".to_string() }
    );
    assert_eq!(
        session.on_location_changed("https://secure.soundcloud.com/signin"),
        LoginAction::Nothing
    );
    assert_eq!(
        session.on_location_changed("https://example.com/?next=soundcloud.com"),
        LoginAction::Nothing
    );
    assert_eq!(session.on_location_changed("soundcloud.com"), LoginAction::Nothing);
    assert_eq!(session.on_location_changed("about:blank"), LoginAction::Nothing);
    assert_eq!(session.on_location_changed(""), LoginAction::Nothing);
    assert_eq!(session, LoginSession::AwaitingTargetHost);
}

#[test]
fn location_is_not_looked_at_before_the_surface_is_ready() {
    let mut idle = LoginSession::new();
    assert_eq!(idle.on_location_changed("https://soundcloud.com/"), LoginAction::Nothing);
    assert_eq!(idle, LoginSession::Idle);
    let mut opening = LoginSession::new();
    opening.advance(LoginEvent::LoginRequested);
    assert_eq!(opening.on_location_changed("https://soundcloud.com/"), LoginAction::Nothing);
    assert_eq!(opening, LoginSession::WindowOpening);
}

#[test]
fn found_token_resolves_and_closes_the_surface() {
    let mut session = waiting_session();
    let jar = Some(vec![cookie("a", "b"), cookie("oauth_token", "2-290-1")]);
    assert_eq!(
        session.on_cookies_read(&jar),
        LoginAction::Resolve {
            outcome: LoginOutcome::Token("2-290-1".to_string()),
            close_surface: true
        }
    );
    assert_eq!(session, LoginSession::Resolved(LoginOutcome::Token("2-290-1".to_string())));
    assert_eq!(session.outcome(), Some(&LoginOutcome::Token("2-290-1".to_string())));
}

#[test]
fn jar_without_token_keeps_waiting() {
    let mut session = waiting_session();
    assert_eq!(session.on_cookies_read(&Some(vec![cookie("a", "b")])), LoginAction::Nothing);
    assert_eq!(session.on_cookies_read(&Some(Vec::new())), LoginAction::Nothing);
    assert_eq!(session.on_cookies_read(&None), LoginAction::Nothing);
    assert_eq!(session.advance(LoginEvent::TokenLookup(None)), LoginAction::Nothing);
    assert_eq!(session, LoginSession::AwaitingTargetHost);
    assert_eq!(session.outcome(), None);
}

#[test]
fn closing_the_surface_cancels_once_and_for_all() {
    let mut session = waiting_session();
    assert_eq!(
        session.advance(LoginEvent::CloseRequested),
        LoginAction::Resolve { outcome: LoginOutcome::Cancelled, close_surface: false }
    );
    assert_eq!(session, LoginSession::Resolved(LoginOutcome::Cancelled));
    let later = vec![
        LoginEvent::TokenLookup(Some("late".to_string())),
        LoginEvent::CloseRequested,
        LoginEvent::SignalDropped,
        LoginEvent::HostObserved(Some("soundcloud.com".to_string())),
        LoginEvent::SurfaceReady,
    ];
    for event in later {
        assert_eq!(session.advance(event), LoginAction::Nothing);
        assert_eq!(session, LoginSession::Resolved(LoginOutcome::Cancelled));
    }
    assert_eq!(
        session.on_cookies_read(&Some(vec![cookie("oauth_token", "late")])),
        LoginAction::Nothing
    );
    assert_eq!(session.on_location_changed("https://soundcloud.com/"), LoginAction::Nothing);
    assert_eq!(session, LoginSession::Resolved(LoginOutcome::Cancelled));
}

#[test]
fn token_is_not_overwritten_by_the_close_that_follows() {
    let mut session = waiting_session();
    session.advance(LoginEvent::TokenLookup(Some("tok".to_string())));
    assert_eq!(session.advance(LoginEvent::CloseRequested), LoginAction::Nothing);
    assert_eq!(
        session.advance(LoginEvent::TokenLookup(Some("other".to_string()))),
        LoginAction::Nothing
    );
    assert_eq!(session, LoginSession::Resolved(LoginOutcome::Token("tok".to_string())));
}

#[test]
fn dropped_signal_interrupts_a_started_session() {
    let mut opening = LoginSession::new();
    opening.advance(LoginEvent::LoginRequested);
    assert_eq!(
        opening.advance(LoginEvent::SignalDropped),
        LoginAction::Resolve { outcome: LoginOutcome::Interrupted, close_surface: false }
    );
    assert_eq!(opening, LoginSession::Resolved(LoginOutcome::Interrupted));

    let mut waiting = waiting_session();
    assert_eq!(
        waiting.advance(LoginEvent::SignalDropped),
        LoginAction::Resolve { outcome: LoginOutcome::Interrupted, close_surface: false }
    );

    let mut idle = LoginSession::new();
    assert_eq!(idle.advance(LoginEvent::SignalDropped), LoginAction::Nothing);
    assert_eq!(idle, LoginSession::Idle);
}

#[test]
fn events_that_a_state_does_not_wait_for_are_ignored() {
    let mut idle = LoginSession::new();
    for event in [
        LoginEvent::SurfaceReady,
        LoginEvent::HostObserved(Some("soundcloud.com".to_string())),
        LoginEvent::TokenLookup(Some("t".to_string())),
        LoginEvent::CloseRequested,
    ] {
        assert_eq!(idle.advance(event), LoginAction::Nothing);
        assert_eq!(idle, LoginSession::Idle);
    }
    let mut opening = LoginSession::new();
    opening.advance(LoginEvent::LoginRequested);
    for event in [
        LoginEvent::HostObserved(Some("soundcloud.com".to_string())),
        LoginEvent::TokenLookup(Some("t".to_string())),
        LoginEvent::CloseRequested,
    ] {
        assert_eq!(opening.advance(event), LoginAction::Nothing);
        assert_eq!(opening, LoginSession::WindowOpening);
    }
    let mut waiting = waiting_session();
    assert_eq!(waiting.advance(LoginEvent::SurfaceReady), LoginAction::Nothing);
    assert_eq!(waiting, LoginSession::AwaitingTargetHost);
}

#[test]
fn outcome_becomes_the_result_of_the_login() {
    assert_eq!(LoginOutcome::Token("abc".to_string()).into_result(), Ok("abc".to_string()));
    assert_eq!(LoginOutcome::Cancelled.into_result(), Err(LoginError::Cancelled));
    assert_eq!(LoginOutcome::Interrupted.into_result(), Err(LoginError::Interrupted));
}

#[test]
fn login_error_messages() {
    assert_eq!(LoginError::AlreadyInProgress.message(), "Login window is already open.");
    assert_eq!(LoginError::Cancelled.message(), "Login canceled by user.");
    assert_eq!(LoginError::Interrupted.message(), "Login interrupted");
}
