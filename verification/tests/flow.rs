use pkce_loopback::decimal::{decimal_string, push_decimal};
use pkce_loopback::flow::{
    bind_address_text, bind_failure_text, browser_failure_text, outcome, redirect_uri_text, step,
    step_with_verifier, timeout_failure_text, FlowAction, FlowConfig, FlowEvent, FlowRequest,
    FlowState,
};
use pkce_loopback::pkce::generate_code_challenge;

const VERIFIER: &str = "dBjftJeZ4CVP-mB92K27uhbUJU1p1r_wW1gFWFOEjXk";

fn request(client_id: &str, scopes: &str) -> FlowRequest {
    FlowRequest {
        config: FlowConfig::standard(),
        client_id: client_id.to_string(),
        scopes: scopes.to_string(),
    }
}

fn awaiting(polls: u32) -> FlowState {
    FlowState::AwaitingUserAuth {
        code_verifier: VERIFIER.to_string(),
        browser_open: true,
        polls,
    }
}

#[test]
fn standard_constants() {
    let config = FlowConfig::standard();
    assert_eq!(config.port, 3737);
    assert_eq!(config.poll_interval_secs, 1);
    assert_eq!(config.max_polls, 60);
    assert_eq!(
        config.auth_endpoint,
        "https://accounts.google.com/o/oauth2/v2/auth"
    );
}

#[test]
fn numerals() {
    assert_eq!(decimal_string(0), "0");
    assert_eq!(decimal_string(7), "7");
    assert_eq!(decimal_string(10), "10");
    assert_eq!(decimal_string(3737), "3737");
    assert_eq!(decimal_string(65535), "65535");
    assert_eq!(decimal_string(u64::MAX), "18446744073709551615");
    let mut out = "port ".to_string();
    push_decimal(&mut out, 1024);
    assert_eq!(out, "port 1024");
}

#[test]
fn addresses() {
    assert_eq!(bind_address_text(3737), "127.0.0.1:3737");
    assert_eq!(redirect_uri_text(3737), "http://localhost:3737");
    assert_eq!(bind_address_text(0), "127.0.0.1:0");
    assert_eq!(redirect_uri_text(65535), "http://localhost:65535");
}

#[test]
fn error_texts() {
    assert_eq!(
        bind_failure_text(3737, "Address already in use (os error 98)"),
        "Failed to bind port 3737: Address already in use (os error 98). \
         Make sure port 3737 is not in use."
    );
    assert_eq!(
        browser_failure_text("no launcher"),
        "Failed to open browser: no launcher"
    );
    assert_eq!(timeout_failure_text(), "OAuth timeout: No response received");
}

#[test]
fn start_asks_for_the_port() {
    let (state, action) = step(&request("abc", "email"), FlowState::Idle, FlowEvent::Start);
    assert!(matches!(state, FlowState::PortBinding));
    match action {
        FlowAction::Bind { address } => assert_eq!(address, "127.0.0.1:3737"),
        _ => panic!("expected a bind"),
    }
}

#[test]
fn bind_failure_ends_the_flow() {
    let (state, action) = step(
        &request("abc", "email"),
        FlowState::PortBinding,
        FlowEvent::BindFailed("Address already in use".to_string()),
    );
    assert!(matches!(action, FlowAction::Done));
    assert_eq!(
        outcome(state).map(|r| r.map(|_| ())),
        Some(Err(
            "Failed to bind port 3737: Address already in use. Make sure port 3737 is not in use."
                .to_string()
        ))
    );
}

#[test]
fn second_flow_on_the_same_port_fails_at_once() {
    let asked = request("abc", "email profile");
    let (first, _) = step(&asked, FlowState::Idle, FlowEvent::Start);
    let (first, first_action) = step(&asked, first, FlowEvent::Bound);
    assert!(matches!(first_action, FlowAction::Launch { .. }));
    assert!(matches!(first, FlowState::AwaitingUserAuth { .. }));
    let (second, _) = step(&asked, FlowState::Idle, FlowEvent::Start);
    let (second, second_action) = step(
        &asked,
        second,
        FlowEvent::BindFailed("Address already in use (os error 98)".to_string()),
    );
    assert!(matches!(second_action, FlowAction::Done));
    match outcome(second) {
        Some(Err(error)) => assert!(error.starts_with("Failed to bind port 3737: ")),
        _ => panic!("expected a bind error"),
    }
}

#[test]
fn bound_port_launches_the_browser() {
    let (state, action) = step_with_verifier(
        &request("abc", "email profile"),
        FlowState::PortBinding,
        FlowEvent::Bound,
        VERIFIER.to_string(),
    );
    match state {
        FlowState::AwaitingUserAuth { code_verifier, browser_open, polls } => {
            assert_eq!(code_verifier, VERIFIER);
            assert!(!browser_open);
            assert_eq!(polls, 0);
        }
        _ => panic!("expected to await the user"),
    }
    match action {
        FlowAction::Launch { authorization_url } => assert_eq!(
            authorization_url,
            "https://accounts.google.com/o/oauth2/v2/auth?client_id=abc\
             &redirect_uri=http%3A%2F%2Flocalhost%3A3737&response_type=code\
             &scope=email%20profile&access_type=offline&prompt=consent\
             &code_challenge=E9Melhoa2OwvFrEMTJguCHaoeK1t8URWbuGJSstw-cM\
             &code_challenge_method=S256"
        ),
        _ => panic!("expected a launch"),
    }
}

#[test]
fn fresh_verifier_goes_into_the_url() {
    let (state, action) = step(
        &request("abc", "email"),
        FlowState::PortBinding,
        FlowEvent::Bound,
    );
    let verifier = match state {
        FlowState::AwaitingUserAuth { code_verifier, .. } => code_verifier,
        _ => panic!("expected to await the user"),
    };
    assert_eq!(verifier.len(), 43);
    let challenge = generate_code_challenge(&verifier);
    match action {
        FlowAction::Launch { authorization_url } => {
            assert!(authorization_url
                .contains(&format!("&code_challenge={}&code_challenge_method=S256", challenge)));
            assert!(!authorization_url.contains(&verifier));
        }
        _ => panic!("expected a launch"),
    }
}

#[test]
fn browser_failure_ends_the_flow() {
    let asked = request("abc", "email");
    let (state, _) = step_with_verifier(
        &asked,
        FlowState::PortBinding,
        FlowEvent::Bound,
        VERIFIER.to_string(),
    );
    let (state, action) = step(&asked, state, FlowEvent::BrowserFailed("no launcher".to_string()));
    assert!(matches!(action, FlowAction::Done));
    assert_eq!(
        outcome(state).map(|r| r.map(|_| ())),
        Some(Err("Failed to open browser: no launcher".to_string()))
    );
}

#[test]
fn opened_browser_starts_the_wait() {
    let asked = request("abc", "email");
    let (state, _) = step_with_verifier(
        &asked,
        FlowState::PortBinding,
        FlowEvent::Bound,
        VERIFIER.to_string(),
    );
    let (state, action) = step(&asked, state, FlowEvent::BrowserOpened);
    assert!(matches!(action, FlowAction::Wait { seconds: 1 }));
    assert!(matches!(
        state,
        FlowState::AwaitingUserAuth { browser_open: true, polls: 0, .. }
    ));
}

#[test]
fn code_at_the_first_look_succeeds() {
    let asked = request("abc", "email profile");
    let (state, _) = step(&asked, FlowState::Idle, FlowEvent::Start);
    let (state, _) = step(&asked, state, FlowEvent::Bound);
    let (state, _) = step(&asked, state, FlowEvent::BrowserOpened);
    let (state, action) = step(&asked, state, FlowEvent::Polled(Some("XYZ789".to_string())));
    assert!(matches!(action, FlowAction::Done));
    match outcome(state) {
        Some(Ok(result)) => {
            assert_eq!(result.code, "XYZ789");
            assert_eq!(result.redirect_uri, "http://localhost:3737");
            assert_eq!(result.code_verifier.len(), 43);
        }
        _ => panic!("expected a result"),
    }
}

#[test]
fn code_at_the_last_look_succeeds() {
    let (state, action) = step(
        &request("abc", "email"),
        awaiting(59),
        FlowEvent::Polled(Some("late".to_string())),
    );
    assert!(matches!(action, FlowAction::Done));
    match outcome(state) {
        Some(Ok(result)) => {
            assert_eq!(result.code, "late");
            assert_eq!(result.code_verifier, VERIFIER);
        }
        _ => panic!("expected a result"),
    }
}

#[test]
fn silence_times_out_after_sixty_looks() {
    let asked = request("abc", "email");
    let (state, _) = step(&asked, FlowState::Idle, FlowEvent::Start);
    let (state, _) = step(&asked, state, FlowEvent::Bound);
    let (mut state, mut action) = step(&asked, state, FlowEvent::BrowserOpened);
    let mut waited = 0u64;
    let mut looks = 0u32;
    while let FlowAction::Wait { seconds } = action {
        waited += seconds;
        looks += 1;
        assert!(looks <= 60);
        let next = step(&asked, state, FlowEvent::Polled(None));
        state = next.0;
        action = next.1;
    }
    assert_eq!(looks, 60);
    assert_eq!(waited, 60);
    assert!(matches!(action, FlowAction::Done));
    assert_eq!(
        outcome(state).map(|r| r.map(|_| ())),
        Some(Err("OAuth timeout: No response received".to_string()))
    );
}

#[test]
fn look_before_the_last_goes_on_waiting() {
    let (state, action) = step(&request("abc", "email"), awaiting(58), FlowEvent::Polled(None));
    assert!(matches!(action, FlowAction::Wait { seconds: 1 }));
    assert!(matches!(
        state,
        FlowState::AwaitingUserAuth { browser_open: true, polls: 59, .. }
    ));
}

#[test]
fn no_looks_allowed_times_out_at_once() {
    let mut asked = request("abc", "email");
    asked.config.max_polls = 0;
    let state = FlowState::AwaitingUserAuth {
        code_verifier: VERIFIER.to_string(),
        browser_open: false,
        polls: 0,
    };
    let (state, action) = step(&asked, state, FlowEvent::BrowserOpened);
    assert!(matches!(action, FlowAction::Done));
    assert!(matches!(state, FlowState::Failed(_)));
}

#[test]
fn ended_flow_stays_ended() {
    let asked = request("abc", "email");
    let (state, action) = step(
        &asked,
        FlowState::Failed("OAuth timeout: No response received".to_string()),
        FlowEvent::Polled(Some("late".to_string())),
    );
    assert!(matches!(action, FlowAction::Done));
    assert_eq!(
        outcome(state).map(|r| r.map(|_| ())),
        Some(Err("OAuth timeout: No response received".to_string()))
    );
}

#[test]
fn event_out_of_place_is_rejected() {
    let asked = request("abc", "email");
    let (state, action) = step(&asked, FlowState::Idle, FlowEvent::Polled(None));
    assert!(matches!(action, FlowAction::Rejected));
    assert!(matches!(state, FlowState::Idle));
    let (state, action) = step(&asked, awaiting(3), FlowEvent::BrowserOpened);
    assert!(matches!(action, FlowAction::Rejected));
    assert!(matches!(
        state,
        FlowState::AwaitingUserAuth { browser_open: true, polls: 3, .. }
    ));
    assert!(outcome(state).is_none());
}

#[test]
fn callback_during_the_first_wait_completes_the_flow() {
    let asked = request("abc", "email profile");
    let mut cell = pkce_loopback::callback::CodeCell::new();
    let (state, action) = step(&asked, FlowState::Idle, FlowEvent::Start);
    assert_eq!(
        action,
        FlowAction::Bind { address: "127.0.0.1:3737".to_string() }
    );
    let (state, action) = step(&asked, state, FlowEvent::Bound);
    assert!(matches!(action, FlowAction::Launch { .. }));
    let (state, action) = step(&asked, state, FlowEvent::BrowserOpened);
    assert_eq!(action, FlowAction::Wait { seconds: 1 });
    let answer = pkce_loopback::callback::handle_callback(&mut cell, "/?code=XYZ789");
    assert_eq!(answer.status, 200);
    let (state, action) = step(&asked, state, FlowEvent::Polled(cell.peek()));
    assert_eq!(action, FlowAction::Done);
    let result = match outcome(state) {
        Some(Ok(result)) => result,
        _ => panic!("expected a result"),
    };
    assert_eq!(result.code, "XYZ789");
    assert_eq!(result.redirect_uri, "http://localhost:3737");
    assert_eq!(result.code_verifier.chars().count(), 43);
}

#[test]
fn callback_without_code_lets_the_flow_time_out() {
    let asked = request("abc", "email");
    let mut cell = pkce_loopback::callback::CodeCell::new();
    pkce_loopback::callback::handle_callback(&mut cell, "/?error=access_denied");
    let mut state = awaiting(0);
    let mut looks = 0;
    loop {
        let (next, action) = step(&asked, state, FlowEvent::Polled(cell.peek()));
        state = next;
        looks += 1;
        if action == FlowAction::Done {
            break;
        }
        assert_eq!(action, FlowAction::Wait { seconds: 1 });
    }
    assert_eq!(looks, 60);
    assert_eq!(
        state,
        FlowState::Failed("OAuth timeout: No response received".to_string())
    );
}
