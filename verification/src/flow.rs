//! The authorization flow as a state machine: from a state and an event to the
//! next state and the action that the caller performs.

use vstd::prelude::*;
use vstd::string::*;
use crate::auth_url::{
    authorization_url,
    build_authorization_url,
    AuthorizationRequest,
    AuthorizationRequestView,
};
use crate::decimal::{decimal, push_decimal};
use crate::pkce::{challenge_of, generate_code_challenge, generate_code_verifier, is_verifier};

verus! {

/// The port of the loopback listener.
pub const DEFAULT_PORT: u16 = 3737;

/// Seconds between two looks at the captured code.
pub const DEFAULT_POLL_INTERVAL_SECS: u64 = 1;

/// Number of looks at the captured code before the flow gives up.
pub const DEFAULT_MAX_POLLS: u32 = 60;

/// The provider's authorization endpoint.
pub open spec fn default_endpoint() -> Seq<char> {
    "https://accounts.google.com/o/oauth2/v2/auth"@
}

/// The address that the listener binds for a port.
pub open spec fn bind_address(port: u16) -> Seq<char> {
    "127.0.0.1:"@ + decimal(port as nat)
}

/// The redirect URI registered with the provider for a port.
pub open spec fn redirect_uri(port: u16) -> Seq<char> {
    "http://localhost:"@ + decimal(port as nat)
}

/// The error reported where the port cannot be bound.
pub open spec fn bind_failure(port: u16, reason: Seq<char>) -> Seq<char> {
    "Failed to bind port "@ + decimal(port as nat) + ": "@ + reason + ". Make sure port "@
        + decimal(port as nat) + " is not in use."@
}

/// The error reported where the browser cannot be opened.
pub open spec fn browser_failure(reason: Seq<char>) -> Seq<char> {
    "Failed to open browser: "@ + reason
}

/// The error reported where no code arrives in time.
pub open spec fn timeout_failure() -> Seq<char> {
    "OAuth timeout: No response received"@
}

/// The constants of a flow.
#[derive(Debug, Clone, PartialEq, Eq)]
pub struct FlowConfig {
    /// The port of the loopback listener.
    pub port: u16,
    /// Seconds between two looks at the captured code.
    pub poll_interval_secs: u64,
    /// Number of looks at the captured code before the flow gives up.
    pub max_polls: u32,
    /// The provider's authorization endpoint.
    pub auth_endpoint: String,
}

/// What one invocation of the flow is given.
#[derive(Debug, Clone, PartialEq, Eq)]
pub struct FlowRequest {
    pub config: FlowConfig,
    pub client_id: String,
    pub scopes: String,
}

/// A flow's request as plain values.
pub struct FlowRequestView {
    pub port: u16,
    pub poll_interval_secs: u64,
    pub max_polls: u32,
    pub auth_endpoint: Seq<char>,
    pub client_id: Seq<char>,
    pub scopes: Seq<char>,
}

impl View for FlowRequest {
    type V = FlowRequestView;

    open spec fn view(&self) -> FlowRequestView {
        FlowRequestView {
            port: self.config.port,
            poll_interval_secs: self.config.poll_interval_secs,
            max_polls: self.config.max_polls,
            auth_endpoint: self.config.auth_endpoint@,
            client_id: self.client_id@,
            scopes: self.scopes@,
        }
    }
}

/// What a flow that succeeded hands to its caller.
#[derive(Debug, Clone, PartialEq, Eq)]
pub struct OAuthResult {
    pub code: String,
    pub redirect_uri: String,
    pub code_verifier: String,
}

/// A result as plain texts.
pub struct OAuthResultView {
    pub code: Seq<char>,
    pub redirect_uri: Seq<char>,
    pub code_verifier: Seq<char>,
}

impl View for OAuthResult {
    type V = OAuthResultView;

    open spec fn view(&self) -> OAuthResultView {
        OAuthResultView {
            code: self.code@,
            redirect_uri: self.redirect_uri@,
            code_verifier: self.code_verifier@,
        }
    }
}

/// Where a flow stands.
#[derive(Debug, Clone, PartialEq, Eq)]
pub enum FlowState {
    /// Nothing has been done.
    Idle,
    /// The caller is binding the port.
    PortBinding,
    /// The port is bound and the credential made. `polls` counts the looks at
    /// the captured code that found none.
    AwaitingUserAuth { code_verifier: String, browser_open: bool, polls: u32 },
    /// A code arrived.
    Succeeded(OAuthResult),
    /// The flow ended with the given error.
    Failed(String),
}

/// A state as plain values.
pub enum FlowStateView {
    Idle,
    PortBinding,
    AwaitingUserAuth { code_verifier: Seq<char>, browser_open: bool, polls: u32 },
    Succeeded(OAuthResultView),
    Failed(Seq<char>),
}

impl View for FlowState {
    type V = FlowStateView;

    open spec fn view(&self) -> FlowStateView {
        match self {
            FlowState::Idle => FlowStateView::Idle,
            FlowState::PortBinding => FlowStateView::PortBinding,
            FlowState::AwaitingUserAuth { code_verifier, browser_open, polls } => {
                FlowStateView::AwaitingUserAuth {
                    code_verifier: code_verifier@,
                    browser_open: *browser_open,
                    polls: *polls,
                }
            },
            FlowState::Succeeded(result) => FlowStateView::Succeeded(result@),
            FlowState::Failed(error) => FlowStateView::Failed(error@),
        }
    }
}

/// What the caller reports back.
#[derive(Debug, Clone, PartialEq, Eq)]
pub enum FlowEvent {
    /// The caller invokes the flow.
    Start,
    /// The port is bound.
    Bound,
    /// The port could not be bound, for the given reason.
    BindFailed(String),
    /// The callback server runs and the browser shows the authorization URL.
    BrowserOpened,
    /// The browser could not be opened, for the given reason.
    BrowserFailed(String),
    /// The caller waited and looked at the captured code.
    Polled(Option<String>),
}

/// An event as plain values.
pub enum FlowEventView {
    Start,
    Bound,
    BindFailed(Seq<char>),
    BrowserOpened,
    BrowserFailed(Seq<char>),
    Polled(Option<Seq<char>>),
}

impl View for FlowEvent {
    type V = FlowEventView;

    open spec fn view(&self) -> FlowEventView {
        match self {
            FlowEvent::Start => FlowEventView::Start,
            FlowEvent::Bound => FlowEventView::Bound,
            FlowEvent::BindFailed(reason) => FlowEventView::BindFailed(reason@),
            FlowEvent::BrowserOpened => FlowEventView::BrowserOpened,
            FlowEvent::BrowserFailed(reason) => FlowEventView::BrowserFailed(reason@),
            FlowEvent::Polled(Some(code)) => FlowEventView::Polled(Some(code@)),
            FlowEvent::Polled(None) => FlowEventView::Polled(None),
        }
    }
}

/// What the caller does next.
#[derive(Debug, Clone, PartialEq, Eq)]
pub enum FlowAction {
    /// Bind the listener to the address, and report `Bound` or `BindFailed`.
    Bind { address: String },
    /// Start the callback server on the bound listener, then open the browser
    /// at the URL, and report `BrowserOpened` or `BrowserFailed`.
    Launch { authorization_url: String },
    /// Sleep for the seconds, look at the captured code, and report `Polled`.
    Wait { seconds: u64 },
    /// The flow has ended: the state holds the result or the error.
    Done,
    /// The event has no meaning in the state, which is unchanged.
    Rejected,
}

/// An action as plain values.
pub enum FlowActionView {
    Bind { address: Seq<char> },
    Launch { authorization_url: Seq<char> },
    Wait { seconds: u64 },
    Done,
    Rejected,
}

impl View for FlowAction {
    type V = FlowActionView;

    open spec fn view(&self) -> FlowActionView {
        match self {
            FlowAction::Bind { address } => FlowActionView::Bind { address: address@ },
            FlowAction::Launch { authorization_url } => FlowActionView::Launch {
                authorization_url: authorization_url@,
            },
            FlowAction::Wait { seconds } => FlowActionView::Wait { seconds: *seconds },
            FlowAction::Done => FlowActionView::Done,
            FlowAction::Rejected => FlowActionView::Rejected,
        }
    }
}

/// The authorization URL that a flow opens for a verifier.
pub open spec fn launch_url(request: FlowRequestView, verifier: Seq<char>) -> Seq<char> {
    authorization_url(
        request.auth_endpoint,
        AuthorizationRequestView {
            client_id: request.client_id,
            redirect_uri: redirect_uri(request.port),
            scopes: request.scopes,
            challenge: challenge_of(verifier),
        },
    )
}

/// Whether the state has no successor.
pub open spec fn is_terminal(state: FlowStateView) -> bool {
    state is Succeeded || state is Failed
}

/// Whether the event makes the flow draw a fresh verifier in the state.
pub open spec fn starts_authorization(state: FlowStateView, event: FlowEventView) -> bool {
    state is PortBinding && event is Bound
}

/// The state after a look at the captured code, and the action that goes with it.
pub open spec fn after_poll(
    request: FlowRequestView,
    code_verifier: Seq<char>,
    polls: u32,
    seen: Option<Seq<char>>,
) -> (FlowStateView, FlowActionView) {
    match seen {
        Some(code) => (
            FlowStateView::Succeeded(
                OAuthResultView { code, redirect_uri: redirect_uri(request.port), code_verifier },
            ),
            FlowActionView::Done,
        ),
        None => if polls + 1 < request.max_polls {
            (
                FlowStateView::AwaitingUserAuth {
                    code_verifier,
                    browser_open: true,
                    polls: (polls + 1) as u32,
                },
                FlowActionView::Wait { seconds: request.poll_interval_secs },
            )
        } else {
            (FlowStateView::Failed(timeout_failure()), FlowActionView::Done)
        },
    }
}

/// The next state and the action, given the verifier to use where the event
/// starts the authorization.
///
/// The port is bound first. Once it is, the credential is made and the browser
/// sent to the authorization URL. From then on the caller looks at the captured
/// code once per interval, at most `max_polls` times. An ended flow stays as it
/// is, and an event with no meaning in a state changes nothing.
pub open spec fn transition(
    request: FlowRequestView,
    state: FlowStateView,
    event: FlowEventView,
    verifier: Seq<char>,
) -> (FlowStateView, FlowActionView) {
    match state {
        FlowStateView::Idle => match event {
            FlowEventView::Start => (
                FlowStateView::PortBinding,
                FlowActionView::Bind { address: bind_address(request.port) },
            ),
            _ => (state, FlowActionView::Rejected),
        },
        FlowStateView::PortBinding => match event {
            FlowEventView::Bound => (
                FlowStateView::AwaitingUserAuth {
                    code_verifier: verifier,
                    browser_open: false,
                    polls: 0,
                },
                FlowActionView::Launch { authorization_url: launch_url(request, verifier) },
            ),
            FlowEventView::BindFailed(reason) => (
                FlowStateView::Failed(bind_failure(request.port, reason)),
                FlowActionView::Done,
            ),
            _ => (state, FlowActionView::Rejected),
        },
        FlowStateView::AwaitingUserAuth { code_verifier, browser_open, polls } => match event {
            FlowEventView::BrowserOpened if !browser_open => if request.max_polls == 0 {
                (FlowStateView::Failed(timeout_failure()), FlowActionView::Done)
            } else {
                (
                    FlowStateView::AwaitingUserAuth { code_verifier, browser_open: true, polls },
                    FlowActionView::Wait { seconds: request.poll_interval_secs },
                )
            },
            FlowEventView::BrowserFailed(reason) if !browser_open => (
                FlowStateView::Failed(browser_failure(reason)),
                FlowActionView::Done,
            ),
            FlowEventView::Polled(seen) if browser_open => after_poll(
                request,
                code_verifier,
                polls,
                seen,
            ),
            _ => (state, FlowActionView::Rejected),
        },
        FlowStateView::Succeeded(_) => (state, FlowActionView::Done),
        FlowStateView::Failed(_) => (state, FlowActionView::Done),
    }
}

impl FlowConfig {
    /// The constants of the flow as it is registered with the provider: port
    /// 3737, sixty looks one second apart.
    pub fn standard() -> (r: FlowConfig)
        ensures
            r.port == DEFAULT_PORT,
            r.poll_interval_secs == DEFAULT_POLL_INTERVAL_SECS,
            r.max_polls == DEFAULT_MAX_POLLS,
            r.auth_endpoint@ == default_endpoint(),
    {
        FlowConfig {
            port: DEFAULT_PORT,
            poll_interval_secs: DEFAULT_POLL_INTERVAL_SECS,
            max_polls: DEFAULT_MAX_POLLS,
            auth_endpoint: "https://accounts.google.com/o/oauth2/v2/auth".to_owned(),
        }
    }
}

/// The address that the listener binds for a port.
pub fn bind_address_text(port: u16) -> (r: String)
    ensures
        r@ == bind_address(port),
{
    let mut out = "127.0.0.1:".to_owned();
    push_decimal(&mut out, port as u64);
    out
}

/// The redirect URI for a port.
pub fn redirect_uri_text(port: u16) -> (r: String)
    ensures
        r@ == redirect_uri(port),
{
    let mut out = "http://localhost:".to_owned();
    push_decimal(&mut out, port as u64);
    out
}

/// The error reported where the port cannot be bound.
pub fn bind_failure_text(port: u16, reason: &str) -> (r: String)
    ensures
        r@ == bind_failure(port, reason@),
{
    let mut out = "Failed to bind port ".to_owned();
    push_decimal(&mut out, port as u64);
    out.append(": ");
    out.append(reason);
    out.append(". Make sure port ");
    push_decimal(&mut out, port as u64);
    out.append(" is not in use.");
    out
}

/// The error reported where the browser cannot be opened.
pub fn browser_failure_text(reason: &str) -> (r: String)
    ensures
        r@ == browser_failure(reason@),
{
    let mut out = "Failed to open browser: ".to_owned();
    out.append(reason);
    out
}

/// The error reported where no code arrives in time.
pub fn timeout_failure_text() -> (r: String)
    ensures
        r@ == timeout_failure(),
{
    "OAuth timeout: No response received".to_owned()
}

/// The state after a look at the captured code, and the action that goes with it.
fn step_after_poll(request: &FlowRequest, code_verifier: String, polls: u32, seen: Option<String>) -> (r: (
    FlowState,
    FlowAction,
))
    ensures
        (r.0@, r.1@) == after_poll(
            request@,
            code_verifier@,
            polls,
            match seen {
                Some(code) => Some(code@),
                None => None,
            },
        ),
{
    match seen {
        Some(code) => (
            FlowState::Succeeded(
                OAuthResult {
                    code,
                    redirect_uri: redirect_uri_text(request.config.port),
                    code_verifier,
                },
            ),
            FlowAction::Done,
        ),
        None => {
            if polls < request.config.max_polls && polls + 1 < request.config.max_polls {
                (
                    FlowState::AwaitingUserAuth {
                        code_verifier,
                        browser_open: true,
                        polls: polls + 1,
                    },
                    FlowAction::Wait { seconds: request.config.poll_interval_secs },
                )
            } else {
                (FlowState::Failed(timeout_failure_text()), FlowAction::Done)
            }
        },
    }
}

/// The next state and the action, with `verifier` as the verifier to use where
/// the event starts the authorization.
pub fn step_with_verifier(
    request: &FlowRequest,
    state: FlowState,
    event: FlowEvent,
    verifier: String,
) -> (r: (FlowState, FlowAction))
    ensures
        (r.0@, r.1@) == transition(request@, state@, event@, verifier@),
{
    match state {
        FlowState::Idle => match event {
            FlowEvent::Start => (
                FlowState::PortBinding,
                FlowAction::Bind { address: bind_address_text(request.config.port) },
            ),
            _ => (FlowState::Idle, FlowAction::Rejected),
        },
        FlowState::PortBinding => match event {
            FlowEvent::Bound => {
                let authorization = AuthorizationRequest {
                    client_id: request.client_id.clone(),
                    redirect_uri: redirect_uri_text(request.config.port),
                    scopes: request.scopes.clone(),
                    challenge: generate_code_challenge(verifier.as_str()),
                };
                let url = build_authorization_url(
                    request.config.auth_endpoint.as_str(),
                    &authorization,
                );
                (
                    FlowState::AwaitingUserAuth {
                        code_verifier: verifier,
                        browser_open: false,
                        polls: 0,
                    },
                    FlowAction::Launch { authorization_url: url },
                )
            },
            FlowEvent::BindFailed(reason) => (
                FlowState::Failed(bind_failure_text(request.config.port, reason.as_str())),
                FlowAction::Done,
            ),
            _ => (FlowState::PortBinding, FlowAction::Rejected),
        },
        FlowState::AwaitingUserAuth { code_verifier, browser_open, polls } => {
            if browser_open {
                match event {
                    FlowEvent::Polled(seen) => step_after_poll(request, code_verifier, polls, seen),
                    _ => (
                        FlowState::AwaitingUserAuth { code_verifier, browser_open, polls },
                        FlowAction::Rejected,
                    ),
                }
            } else {
                match event {
                    FlowEvent::BrowserOpened => {
                        if request.config.max_polls == 0 {
                            (FlowState::Failed(timeout_failure_text()), FlowAction::Done)
                        } else {
                            (
                                FlowState::AwaitingUserAuth {
                                    code_verifier,
                                    browser_open: true,
                                    polls,
                                },
                                FlowAction::Wait { seconds: request.config.poll_interval_secs },
                            )
                        }
                    },
                    FlowEvent::BrowserFailed(reason) => (
                        FlowState::Failed(browser_failure_text(reason.as_str())),
                        FlowAction::Done,
                    ),
                    _ => (
                        FlowState::AwaitingUserAuth { code_verifier, browser_open, polls },
                        FlowAction::Rejected,
                    ),
                }
            }
        },
        FlowState::Succeeded(result) => (FlowState::Succeeded(result), FlowAction::Done),
        FlowState::Failed(error) => (FlowState::Failed(error), FlowAction::Done),
    }
}

/// The next state and the action. Where the event starts the authorization, a
/// fresh verifier is drawn; everything else is decided by the state and the
/// event alone.
pub fn step(request: &FlowRequest, state: FlowState, event: FlowEvent) -> (r: (
    FlowState,
    FlowAction,
))
    ensures
        !starts_authorization(state@, event@) ==> (r.0@, r.1@) == transition(
            request@,
            state@,
            event@,
            Seq::empty(),
        ),
        starts_authorization(state@, event@) ==> (r.0@ matches FlowStateView::AwaitingUserAuth {
            code_verifier,
            ..
        } && is_verifier(code_verifier) && (r.0@, r.1@) == transition(
            request@,
            state@,
            event@,
            code_verifier,
        )),
{
    let fresh = match state {
        FlowState::PortBinding => match event {
            FlowEvent::Bound => true,
            _ => false,
        },
        _ => false,
    };
    let verifier = if fresh {
        generate_code_verifier()
    } else {
        String::new()
    };
    step_with_verifier(request, state, event, verifier)
}

/// What an ended flow hands to its caller; nothing while the flow goes on.
pub fn outcome(state: FlowState) -> (r: Option<Result<OAuthResult, String>>)
    ensures
        match state@ {
            FlowStateView::Succeeded(result) => r matches Some(Ok(given)) && given@ == result,
            FlowStateView::Failed(error) => r matches Some(Err(given)) && given@ == error,
            _ => r is None,
        },
{
    match state {
        FlowState::Succeeded(result) => Some(Ok(result)),
        FlowState::Failed(error) => Some(Err(error)),
        _ => None,
    }
}

/// The state in which the caller looks at the captured code, after `polls`
/// looks that found none.
pub open spec fn waiting(code_verifier: Seq<char>, polls: u32) -> FlowStateView {
    FlowStateView::AwaitingUserAuth { code_verifier, browser_open: true, polls }
}

/// The state after the looks at the captured code that `seen` lists, the
/// earliest first, from the state in which the browser has just been opened.
pub open spec fn after_looks(
    request: FlowRequestView,
    code_verifier: Seq<char>,
    seen: Seq<Option<Seq<char>>>,
) -> FlowStateView
    decreases seen.len(),
{
    if seen.len() == 0 {
        waiting(code_verifier, 0)
    } else {
        transition(
            request,
            after_looks(request, code_verifier, seen.drop_last()),
            FlowEventView::Polled(seen.last()),
            Seq::empty(),
        ).0
    }
}

/// The looks that found nothing, `n` of them.
pub open spec fn silence(n: nat) -> Seq<Option<Seq<char>>> {
    Seq::new(n, |i: int| None)
}

/// The browser is sent to the authorization URL only once the port is bound:
/// no other state and no other event give that action.
pub proof fn lemma_launch_follows_bind(
    request: FlowRequestView,
    state: FlowStateView,
    event: FlowEventView,
    verifier: Seq<char>,
)
    ensures
        transition(request, state, event, verifier).1 is Launch <==> starts_authorization(
            state,
            event,
        ),
{
}

/// An ended flow stays as it is, whatever is reported to it.
pub proof fn lemma_ended_flow_stays(
    request: FlowRequestView,
    state: FlowStateView,
    event: FlowEventView,
    verifier: Seq<char>,
)
    requires
        is_terminal(state),
    ensures
        transition(request, state, event, verifier) == (state, FlowActionView::Done),
{
}

/// The verifier matters to the step that starts the authorization and to no other.
pub proof fn lemma_verifier_used_once(
    request: FlowRequestView,
    state: FlowStateView,
    event: FlowEventView,
    first: Seq<char>,
    second: Seq<char>,
)
    requires
        !starts_authorization(state, event),
    ensures
        transition(request, state, event, first) == transition(request, state, event, second),
{
}

/// A flow to which no code is reported goes on waiting through every look but
/// the last allowed one, and at that one fails with the timeout error: it
/// sleeps `max_polls` times and never longer.
pub proof fn lemma_silence_times_out(request: FlowRequestView, code_verifier: Seq<char>, n: nat)
    requires
        request.max_polls > 0,
    ensures
        n < request.max_polls ==> after_looks(request, code_verifier, silence(n)) == waiting(
            code_verifier,
            n as u32,
        ),
        n >= request.max_polls ==> after_looks(request, code_verifier, silence(n))
            == FlowStateView::Failed(timeout_failure()),
        0 < n <= request.max_polls ==> transition(
            request,
            after_looks(request, code_verifier, silence((n - 1) as nat)),
            FlowEventView::Polled(None),
            Seq::empty(),
        ).1 == (if n < request.max_polls {
            FlowActionView::Wait { seconds: request.poll_interval_secs }
        } else {
            FlowActionView::Done
        }),
    decreases n,
{
    if n > 0 {
        lemma_silence_times_out(request, code_verifier, (n - 1) as nat);
        assert(silence(n).drop_last() =~= silence((n - 1) as nat));
        assert(silence(n).last() == None::<Seq<char>>);
    }
}

/// Whatever the looks find, the flow either has ended or has counted every
/// look and is still within its budget: once `max_polls` looks were made, it
/// has ended.
pub proof fn lemma_flow_ends_within_budget(
    request: FlowRequestView,
    code_verifier: Seq<char>,
    seen: Seq<Option<Seq<char>>>,
)
    ensures
        is_terminal(after_looks(request, code_verifier, seen)) || (after_looks(
            request,
            code_verifier,
            seen,
        ) == waiting(code_verifier, seen.len() as u32) && (seen.len() == 0 || seen.len()
            < request.max_polls)),
        seen.len() >= request.max_polls && seen.len() > 0 ==> is_terminal(
            after_looks(request, code_verifier, seen),
        ),
    decreases seen.len(),
{
    if seen.len() > 0 {
        lemma_flow_ends_within_budget(request, code_verifier, seen.drop_last());
    }
}

/// The first code that a look finds within the budget is the one handed to the
/// caller, with the redirect URI of the port and the verifier of the flow.
pub proof fn lemma_first_code_is_returned(
    request: FlowRequestView,
    code_verifier: Seq<char>,
    n: nat,
    code: Seq<char>,
)
    requires
        n < request.max_polls,
    ensures
        after_looks(request, code_verifier, silence(n).push(Some(code)))
            == FlowStateView::Succeeded(
            OAuthResultView { code, redirect_uri: redirect_uri(request.port), code_verifier },
        ),
{
    let seen = silence(n).push(Some(code));
    lemma_silence_times_out(request, code_verifier, n);
    assert(seen.drop_last() =~= silence(n));
    assert(seen.last() == Some(code));
}

} // verus!
