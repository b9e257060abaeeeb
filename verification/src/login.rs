//! Login session coordinator: a four-state machine that turns what the
//! interactive sign-in surface reports into a single outcome.
//!
//! The owner of the surface performs the actions and reports back what
//! happened; every decision is taken here.

use crate::fields::{first_value, lookup, Field};
use crate::text::{optional_text, same_text};
use vstd::prelude::*;

verus! {

/// Where the sign-in surface is first sent.
pub const SIGN_IN_URL: &'static str = "https://soundcloud.com/signin";

/// The host on which the session cookie becomes visible.
pub const TARGET_HOST: &'static str = "soundcloud.com";

/// The address whose cookie jar is inspected.
pub const COOKIE_JAR_URL: &'static str = "https://soundcloud.com";

/// The name of the cookie that carries the session token.
pub const TOKEN_COOKIE: &'static str = "oauth_token";

/// One cookie of the surface's jar: its name and its value.
pub type Cookie = Field;

/// The session token that a cookie jar holds: the value of the first cookie
/// named `oauth_token`, if there is one.
pub open spec fn session_token(jar: Seq<Cookie>) -> Option<Seq<char>> {
    first_value(jar, TOKEN_COOKIE@)
}

/// Looks for the session token in a cookie jar: the value of the first
/// cookie whose name is `oauth_token`.
pub fn check_cookies(jar: &Vec<Cookie>) -> (token: Option<String>)
    ensures
        optional_text(token) == session_token(jar@),
{
    lookup(jar, TOKEN_COOKIE)
}

/// What the URL parser finds as the host of a location: the host of the
/// parsed URL as text, or `None` where the location does not parse as an
/// absolute URL or the parsed URL has no host.
pub uninterp spec fn url_host(location: Seq<char>) -> Option<Seq<char>>;

/// `url::Url::parse` on the location, then `Url::host_str` on the parsed
/// URL. The contract names what the two return together and claims only that
/// the same location always gives the same host.
#[verifier::external_body]
fn location_host(location: &str) -> (host: Option<String>)
    ensures
        optional_text(host) == url_host(location@),
{
    match url::Url::parse(location) {
        Ok(parsed) => parsed.host_str().map(|host| host.to_string()),
        Err(_) => None,
    }
}

/// How a login session ends.
#[derive(Debug, PartialEq, Eq)]
pub enum LoginOutcome {
    /// The session cookie was seen; this is its value.
    Token(String),
    /// The user closed the surface first.
    Cancelled,
    /// The session was torn down before anything resolved it.
    Interrupted,
}

/// The model of a [`LoginOutcome`].
pub enum LoginOutcomeView {
    Token(Seq<char>),
    Cancelled,
    Interrupted,
}

impl View for LoginOutcome {
    type V = LoginOutcomeView;

    open spec fn view(&self) -> LoginOutcomeView {
        match *self {
            LoginOutcome::Token(token) => LoginOutcomeView::Token(token@),
            LoginOutcome::Cancelled => LoginOutcomeView::Cancelled,
            LoginOutcome::Interrupted => LoginOutcomeView::Interrupted,
        }
    }
}

/// Why a login request did not yield a token.
#[derive(Debug, Clone, Copy, PartialEq, Eq, Structural)]
pub enum LoginError {
    /// A session already exists; the request was turned away.
    AlreadyInProgress,
    /// The user closed the surface before a token was seen.
    Cancelled,
    /// The session ended without an outcome being delivered.
    Interrupted,
}

/// The states of a login session.
#[derive(Debug, PartialEq, Eq)]
pub enum LoginSession {
    /// No login was asked for yet.
    Idle,
    /// The surface was asked for and is not there yet.
    WindowOpening,
    /// The surface is open; the session waits for the target host, the
    /// cookie, or the user closing the surface.
    AwaitingTargetHost,
    /// The session has its outcome. Nothing changes it any more.
    Resolved(LoginOutcome),
}

/// The model of a [`LoginSession`].
pub enum LoginSessionView {
    Idle,
    WindowOpening,
    AwaitingTargetHost,
    Resolved(LoginOutcomeView),
}

impl View for LoginSession {
    type V = LoginSessionView;

    open spec fn view(&self) -> LoginSessionView {
        match *self {
            LoginSession::Idle => LoginSessionView::Idle,
            LoginSession::WindowOpening => LoginSessionView::WindowOpening,
            LoginSession::AwaitingTargetHost => LoginSessionView::AwaitingTargetHost,
            LoginSession::Resolved(outcome) => LoginSessionView::Resolved(outcome@),
        }
    }
}

/// What can happen to a login session.
#[derive(Debug, PartialEq, Eq)]
pub enum LoginEvent {
    /// A caller asks to log in.
    LoginRequested,
    /// The surface exists and was sent to the sign-in address.
    SurfaceReady,
    /// The surface's location or title changed; this is the host of its
    /// current location, if it has one.
    HostObserved(Option<String>),
    /// The cookie jar was inspected; this is the session token found in it,
    /// if any.
    TokenLookup(Option<String>),
    /// The user asked to close the surface.
    CloseRequested,
    /// The completion signal was dropped without a value.
    SignalDropped,
}

/// The model of a [`LoginEvent`].
pub enum LoginEventView {
    LoginRequested,
    SurfaceReady,
    HostObserved(Option<Seq<char>>),
    TokenLookup(Option<Seq<char>>),
    CloseRequested,
    SignalDropped,
}

impl View for LoginEvent {
    type V = LoginEventView;

    open spec fn view(&self) -> LoginEventView {
        match *self {
            LoginEvent::LoginRequested => LoginEventView::LoginRequested,
            LoginEvent::SurfaceReady => LoginEventView::SurfaceReady,
            LoginEvent::HostObserved(host) => LoginEventView::HostObserved(optional_text(host)),
            LoginEvent::TokenLookup(token) => LoginEventView::TokenLookup(optional_text(token)),
            LoginEvent::CloseRequested => LoginEventView::CloseRequested,
            LoginEvent::SignalDropped => LoginEventView::SignalDropped,
        }
    }
}

/// What the owner of the surface is told to do after an event.
#[derive(Debug, PartialEq, Eq)]
pub enum LoginAction {
    /// Create the surface and send it to `url`.
    OpenSurface { url: String },
    /// Read the cookies stored for `url`, off the surface's own event
    /// context, and report the token lookup.
    InspectCookies { url: String },
    /// Deliver `outcome` through the completion signal, and close the
    /// surface afterwards if `close_surface` is set.
    Resolve { outcome: LoginOutcome, close_surface: bool },
    /// Answer the request with this error; the running session is not
    /// touched.
    Reject(LoginError),
    /// Nothing to do.
    Nothing,
}

/// The model of a [`LoginAction`].
pub enum LoginActionView {
    OpenSurface { url: Seq<char> },
    InspectCookies { url: Seq<char> },
    Resolve { outcome: LoginOutcomeView, close_surface: bool },
    Reject(LoginError),
    Nothing,
}

impl View for LoginAction {
    type V = LoginActionView;

    open spec fn view(&self) -> LoginActionView {
        match *self {
            LoginAction::OpenSurface { url } => LoginActionView::OpenSurface { url: url@ },
            LoginAction::InspectCookies { url } => LoginActionView::InspectCookies { url: url@ },
            LoginAction::Resolve { outcome, close_surface } => LoginActionView::Resolve {
                outcome: outcome@,
                close_surface,
            },
            LoginAction::Reject(error) => LoginActionView::Reject(error),
            LoginAction::Nothing => LoginActionView::Nothing,
        }
    }
}

/// The session resolves with `outcome`: it becomes `Resolved` and the
/// outcome is to be delivered.
pub open spec fn resolving(outcome: LoginOutcomeView, close_surface: bool) -> (
    LoginSessionView,
    LoginActionView,
) {
    (LoginSessionView::Resolved(outcome), LoginActionView::Resolve { outcome, close_surface })
}

/// The transition function of the login session: the state after `event`
/// and the action that the event calls for.
///
/// - A login request starts an idle session and is rejected in every other
///   state, which it leaves as it was.
/// - Once the surface is ready the session waits. While it waits, a location
///   on the target host calls for a look at the cookies, a found token
///   resolves the session with it and closes the surface, and a close
///   request resolves it as cancelled.
/// - A dropped completion signal resolves a session that was started and has
///   no outcome yet as interrupted.
/// - Everything else, and every event after the session is resolved, changes
///   nothing.
pub open spec fn login_step(state: LoginSessionView, event: LoginEventView) -> (
    LoginSessionView,
    LoginActionView,
) {
    match (state, event) {
        (LoginSessionView::Idle, LoginEventView::LoginRequested) => (
            LoginSessionView::WindowOpening,
            LoginActionView::OpenSurface { url: SIGN_IN_URL@ },
        ),
        (_, LoginEventView::LoginRequested) => (
            state,
            LoginActionView::Reject(LoginError::AlreadyInProgress),
        ),
        (LoginSessionView::WindowOpening, LoginEventView::SurfaceReady) => (
            LoginSessionView::AwaitingTargetHost,
            LoginActionView::Nothing,
        ),
        (LoginSessionView::WindowOpening, LoginEventView::SignalDropped) => resolving(
            LoginOutcomeView::Interrupted,
            false,
        ),
        (LoginSessionView::AwaitingTargetHost, LoginEventView::HostObserved(host)) => if host
            == Some(TARGET_HOST@) {
            (state, LoginActionView::InspectCookies { url: COOKIE_JAR_URL@ })
        } else {
            (state, LoginActionView::Nothing)
        },
        (LoginSessionView::AwaitingTargetHost, LoginEventView::TokenLookup(Some(token))) =>
            resolving(LoginOutcomeView::Token(token), true),
        (LoginSessionView::AwaitingTargetHost, LoginEventView::CloseRequested) => resolving(
            LoginOutcomeView::Cancelled,
            false,
        ),
        (LoginSessionView::AwaitingTargetHost, LoginEventView::SignalDropped) => resolving(
            LoginOutcomeView::Interrupted,
            false,
        ),
        _ => (state, LoginActionView::Nothing),
    }
}

/// The token in a jar that may have been unreadable: an unreadable jar
/// holds no token.
pub open spec fn jar_token(jar: Option<Vec<Cookie>>) -> Option<Seq<char>> {
    match jar {
        Some(cookies) => session_token(cookies@),
        None => None,
    }
}

/// What an outcome means to the caller who asked to log in: the token, or
/// the error that stands for the way the session ended.
pub open spec fn login_result(outcome: LoginOutcomeView) -> Result<Seq<char>, LoginError> {
    match outcome {
        LoginOutcomeView::Token(token) => Ok(token),
        LoginOutcomeView::Cancelled => Err(LoginError::Cancelled),
        LoginOutcomeView::Interrupted => Err(LoginError::Interrupted),
    }
}

/// The text of a login error, as the caller is shown it.
pub open spec fn login_error_text(error: LoginError) -> Seq<char> {
    match error {
        LoginError::AlreadyInProgress => "Login window is already open."@,
        LoginError::Cancelled => "Login canceled by user."@,
        LoginError::Interrupted => "Login interrupted"@,
    }
}

impl LoginError {
    /// The message that describes this error to the caller.
    pub fn message(&self) -> (text: String)
        ensures
            text@ == login_error_text(*self),
    {
        match self {
            LoginError::AlreadyInProgress => "Login window is already open.".to_owned(),
            LoginError::Cancelled => "Login canceled by user.".to_owned(),
            LoginError::Interrupted => "Login interrupted".to_owned(),
        }
    }
}

impl LoginOutcome {
    /// Turns the outcome into what the login call returns.
    pub fn into_result(self) -> (result: Result<String, LoginError>)
        ensures
            match result {
                Ok(token) => login_result(self@) == Ok::<Seq<char>, LoginError>(token@),
                Err(error) => login_result(self@) == Err::<Seq<char>, LoginError>(error),
            },
    {
        match self {
            LoginOutcome::Token(token) => Ok(token),
            LoginOutcome::Cancelled => Err(LoginError::Cancelled),
            LoginOutcome::Interrupted => Err(LoginError::Interrupted),
        }
    }
}

impl LoginSession {
    /// A session that has not been started.
    pub fn new() -> (session: LoginSession)
        ensures
            session@ == LoginSessionView::Idle,
    {
        LoginSession::Idle
    }

    /// Takes one event and says what to do about it.
    pub fn advance(&mut self, event: LoginEvent) -> (action: LoginAction)
        ensures
            (final(self)@, action@) == login_step(old(self)@, event@),
            !(old(self)@ is Idle) && event@ is LoginRequested ==> *final(self) == *old(self)
                && action == LoginAction::Reject(LoginError::AlreadyInProgress),
            old(self)@ is Resolved ==> *final(self) == *old(self) && !(action@ is Resolve),
    {
        match event {
            LoginEvent::LoginRequested => {
                if let LoginSession::Idle = self {
                    *self = LoginSession::WindowOpening;
                    LoginAction::OpenSurface { url: SIGN_IN_URL.to_owned() }
                } else {
                    LoginAction::Reject(LoginError::AlreadyInProgress)
                }
            },
            LoginEvent::SurfaceReady => {
                if let LoginSession::WindowOpening = self {
                    *self = LoginSession::AwaitingTargetHost;
                }
                LoginAction::Nothing
            },
            LoginEvent::HostObserved(host) => {
                if let LoginSession::AwaitingTargetHost = self {
                    match host {
                        Some(name) => {
                            if same_text(name.as_str(), TARGET_HOST) {
                                LoginAction::InspectCookies { url: COOKIE_JAR_URL.to_owned() }
                            } else {
                                LoginAction::Nothing
                            }
                        },
                        None => LoginAction::Nothing,
                    }
                } else {
                    LoginAction::Nothing
                }
            },
            LoginEvent::TokenLookup(token) => {
                if let LoginSession::AwaitingTargetHost = self {
                    match token {
                        Some(value) => {
                            *self = LoginSession::Resolved(LoginOutcome::Token(value.clone()));
                            LoginAction::Resolve {
                                outcome: LoginOutcome::Token(value),
                                close_surface: true,
                            }
                        },
                        None => LoginAction::Nothing,
                    }
                } else {
                    LoginAction::Nothing
                }
            },
            LoginEvent::CloseRequested => {
                if let LoginSession::AwaitingTargetHost = self {
                    *self = LoginSession::Resolved(LoginOutcome::Cancelled);
                    LoginAction::Resolve { outcome: LoginOutcome::Cancelled, close_surface: false }
                } else {
                    LoginAction::Nothing
                }
            },
            LoginEvent::SignalDropped => {
                match self {
                    LoginSession::WindowOpening | LoginSession::AwaitingTargetHost => {
                        *self = LoginSession::Resolved(LoginOutcome::Interrupted);
                        LoginAction::Resolve {
                            outcome: LoginOutcome::Interrupted,
                            close_surface: false,
                        }
                    },
                    _ => LoginAction::Nothing,
                }
            },
        }
    }

    /// Reports that the surface's location or title changed while it shows
    /// `location`. The host is taken from the location by the URL parser and
    /// handed to [`LoginSession::advance`] as a `HostObserved` event.
    pub fn on_location_changed(&mut self, location: &str) -> (action: LoginAction)
        ensures
            (final(self)@, action@) == login_step(
                old(self)@,
                LoginEventView::HostObserved(url_host(location@)),
            ),
    {
        let host = location_host(location);
        self.advance(LoginEvent::HostObserved(host))
    }

    /// Reports what the cookie jar held, or `None` where it could not be
    /// read. The token is looked up with [`check_cookies`] and handed to
    /// [`LoginSession::advance`] as a `TokenLookup` event.
    pub fn on_cookies_read(&mut self, jar: &Option<Vec<Cookie>>) -> (action: LoginAction)
        ensures
            (final(self)@, action@) == login_step(
                old(self)@,
                LoginEventView::TokenLookup(jar_token(*jar)),
            ),
    {
        let token = match jar {
            Some(cookies) => check_cookies(cookies),
            None => None,
        };
        self.advance(LoginEvent::TokenLookup(token))
    }

    /// The outcome of the session, once it has one.
    pub fn outcome(&self) -> (outcome: Option<&LoginOutcome>)
        ensures
            match outcome {
                Some(found) => self@ == LoginSessionView::Resolved(found@),
                None => !(self@ is Resolved),
            },
    {
        match self {
            LoginSession::Resolved(outcome) => Some(outcome),
            _ => None,
        }
    }
}

/// The state reached from `state` after all of `events`, in order.
pub open spec fn state_after(
    state: LoginSessionView,
    events: Seq<LoginEventView>,
) -> LoginSessionView
    decreases events.len(),
{
    if events.len() == 0 {
        state
    } else {
        state_after(login_step(state, events[0]).0, events.drop_first())
    }
}

/// The outcomes that the actions along `events` deliver, in order.
pub open spec fn delivered(state: LoginSessionView, events: Seq<LoginEventView>) -> Seq<
    LoginOutcomeView,
>
    decreases events.len(),
{
    if events.len() == 0 {
        Seq::empty()
    } else {
        let (next, action) = login_step(state, events[0]);
        let rest = delivered(next, events.drop_first());
        match action {
            LoginActionView::Resolve { outcome, .. } => seq![outcome] + rest,
            _ => rest,
        }
    }
}

/// A login request that arrives while a session exists is rejected with
/// `AlreadyInProgress` and leaves the session exactly as it was.
pub proof fn second_request_is_rejected(state: LoginSessionView)
    requires
        !(state is Idle),
    ensures
        login_step(state, LoginEventView::LoginRequested) == (
            state,
            LoginActionView::Reject(LoginError::AlreadyInProgress),
        ),
{
}

/// A resolved session is terminal: no run of events changes its state, and
/// none of them delivers another outcome.
pub proof fn resolved_is_terminal(outcome: LoginOutcomeView, events: Seq<LoginEventView>)
    ensures
        state_after(LoginSessionView::Resolved(outcome), events) == LoginSessionView::Resolved(
            outcome,
        ),
        delivered(LoginSessionView::Resolved(outcome), events) == Seq::<LoginOutcomeView>::empty(),
    decreases events.len(),
{
    if events.len() > 0 {
        resolved_is_terminal(outcome, events.drop_first());
    }
}

/// A run of events can be taken in two parts: the second part starts in
/// the state that the first part ends in.
pub proof fn run_in_two_parts(
    state: LoginSessionView,
    first: Seq<LoginEventView>,
    second: Seq<LoginEventView>,
)
    ensures
        state_after(state, first + second) == state_after(state_after(state, first), second),
        delivered(state, first + second) == delivered(state, first) + delivered(
            state_after(state, first),
            second,
        ),
    decreases first.len(),
{
    if first.len() == 0 {
        assert(first + second =~= second);
        assert(delivered(state, first) + delivered(state, second) =~= delivered(state, second));
    } else {
        let (next, action) = login_step(state, first[0]);
        assert((first + second).drop_first() =~= first.drop_first() + second);
        assert((first + second)[0] == first[0]);
        run_in_two_parts(next, first.drop_first(), second);
        let rest = delivered(next, first.drop_first());
        let tail = delivered(state_after(state, first), second);
        if let LoginActionView::Resolve { outcome, .. } = action {
            assert(seq![outcome] + (rest + tail) =~= (seq![outcome] + rest) + tail);
        }
    }
}

/// A waiting session that has delivered nothing is still waiting.
proof fn waiting_until_resolved(events: Seq<LoginEventView>)
    requires
        delivered(LoginSessionView::AwaitingTargetHost, events).len() == 0,
    ensures
        state_after(LoginSessionView::AwaitingTargetHost, events)
            == LoginSessionView::AwaitingTargetHost,
    decreases events.len(),
{
    if events.len() > 0 {
        let (next, action) = login_step(LoginSessionView::AwaitingTargetHost, events[0]);
        match action {
            LoginActionView::Resolve { outcome, .. } => {
                let rest = delivered(next, events.drop_first());
                assert((seq![outcome] + rest).len() > 0);
            },
            _ => {
                waiting_until_resolved(events.drop_first());
            },
        }
    }
}

/// Closing the surface before anything has resolved the session resolves
/// it as cancelled; whatever happens afterwards, `Cancelled` stays the
/// outcome and is the only one ever delivered.
pub proof fn close_resolves_cancelled_once(before: Seq<LoginEventView>, later: Seq<LoginEventView>)
    requires
        delivered(LoginSessionView::AwaitingTargetHost, before).len() == 0,
    ensures
        state_after(
            LoginSessionView::AwaitingTargetHost,
            before + seq![LoginEventView::CloseRequested] + later,
        ) == LoginSessionView::Resolved(LoginOutcomeView::Cancelled),
        delivered(
            LoginSessionView::AwaitingTargetHost,
            before + seq![LoginEventView::CloseRequested] + later,
        ) == seq![LoginOutcomeView::Cancelled],
{
    let waiting = LoginSessionView::AwaitingTargetHost;
    let closing = seq![LoginEventView::CloseRequested] + later;
    waiting_until_resolved(before);
    assert(before + seq![LoginEventView::CloseRequested] + later =~= before + closing);
    run_in_two_parts(waiting, before, closing);
    assert(closing.drop_first() =~= later);
    resolved_is_terminal(LoginOutcomeView::Cancelled, later);
    assert(delivered(waiting, before) =~= Seq::<LoginOutcomeView>::empty());
    assert(delivered(waiting, closing) =~= seq![LoginOutcomeView::Cancelled]);
}

/// Whatever the state and the events, a session delivers at most one
/// outcome, and if it delivers one it ends resolved with that outcome.
pub proof fn at_most_one_outcome(state: LoginSessionView, events: Seq<LoginEventView>)
    ensures
        delivered(state, events).len() <= 1,
        delivered(state, events).len() == 1 ==> state_after(state, events)
            == LoginSessionView::Resolved(delivered(state, events)[0]),
    decreases events.len(),
{
    if events.len() > 0 {
        let (next, action) = login_step(state, events[0]);
        match action {
            LoginActionView::Resolve { outcome, .. } => {
                resolved_is_terminal(outcome, events.drop_first());
            },
            _ => {
                at_most_one_outcome(next, events.drop_first());
            },
        }
    }
}

} // verus!
