use komodo_logic::connection::{
    classify_login_failure_phase, connect_error, outbound_step, periphery_endpoint, OutboundAction,
    OutboundEvent, OutboundFailurePhase, OutboundRetryLogDecision, OutboundRetryTracker, OutboundState,
    OutboundStep,
};
use komodo_logic::report::ErrorChain;

fn err(m: &str) -> ErrorChain {
    ErrorChain::single(m.into())
}

#[test]
fn retry_tracker_counts_runs_per_phase() {
    let mut t = OutboundRetryTracker::default();
    let e = t.record_failure(OutboundFailurePhase::Connect);
    assert_eq!(e.attempt, 1);
    assert_eq!(e.log_decision, Some(OutboundRetryLogDecision::FirstFailure));
    for expected in 2..10 {
        let e = t.record_failure(OutboundFailurePhase::Connect);
        assert_eq!(e.attempt, expected);
        assert_eq!(e.log_decision, None);
    }
    let e = t.record_failure(OutboundFailurePhase::Connect);
    assert_eq!(e.attempt, 10);
    assert_eq!(e.log_decision, Some(OutboundRetryLogDecision::StillFailing));
    let e = t.record_failure(OutboundFailurePhase::Login);
    assert_eq!(e.attempt, 1);
    assert_eq!(e.phase, OutboundFailurePhase::Login);
    t.reset();
    assert!(t.phase.is_none());
    assert_eq!(t.attempt, 0);
    let e = t.record_failure(OutboundFailurePhase::Login);
    assert_eq!(e.attempt, 1);
    assert_eq!(e.log_decision, Some(OutboundRetryLogDecision::FirstFailure));
}

#[test]
fn phase_names() {
    assert_eq!(OutboundFailurePhase::Connect.as_str(), "connect");
    assert_eq!(OutboundFailurePhase::OnboardingFlow.as_str(), "onboarding_flow");
    assert_eq!(OutboundFailurePhase::Handshake.as_str(), "handshake");
    assert_eq!(OutboundFailurePhase::Login.as_str(), "login");
    assert_eq!(OutboundFailurePhase::Onboarding.as_str(), "onboarding");
}

#[test]
fn login_failures_mentioning_the_handshake_are_classified() {
    let e = err("bad NONCE received").context("login failed".into());
    assert_eq!(classify_login_failure_phase(&e), OutboundFailurePhase::Handshake);
    assert_eq!(classify_login_failure_phase(&err("Handshake timeout")), OutboundFailurePhase::Handshake);
    assert_eq!(classify_login_failure_phase(&err("invalid key")), OutboundFailurePhase::Login);
}

#[test]
fn refused_connections_name_the_server() {
    assert_eq!(connect_error(404, "srv", err("x")).message(), "404 Not Found: Server 'srv' does not exist.");
    assert_eq!(
        connect_error(400, "srv", err("x")).message(),
        "400 Bad Request: Server 'srv' is disabled or configured to make Core → Periphery connection"
    );
    assert!(connect_error(401, "srv", err("x")).message().starts_with("401 Unauthorized: Only one Server connected as 'srv'"));
    assert_eq!(connect_error(500, "srv", err("transport")).message(), "transport");
}

#[test]
fn endpoint_percent_encodes_the_server_name() {
    assert_eq!(
        periphery_endpoint("wss://core.example.com", "my server/é"),
        "wss://core.example.com/ws/periphery?server=my%20server%2F%C3%A9"
    );
}

#[test]
fn outbound_loop_retries_and_recovers() {
    let mut t = OutboundRetryTracker::default();
    let (s, a) = outbound_step(OutboundState::Connecting, OutboundEvent::ConnectFailed(err("refused")), &mut t);
    assert!(matches!(s, OutboundState::Connecting));
    match a {
        OutboundAction::RetryLater(ev, e) => {
            assert_eq!(ev.phase, OutboundFailurePhase::Connect);
            assert_eq!(ev.attempt, 1);
            assert_eq!(e.message(), "refused");
        }
        _ => panic!("expected a retry"),
    }
    let (s, a) = outbound_step(s, OutboundEvent::Connected, &mut t);
    assert!(matches!(a, OutboundAction::Do(OutboundStep::ReceiveFlow)));
    let (s, a) = outbound_step(s, OutboundEvent::FlowReceived(false), &mut t);
    assert!(matches!(a, OutboundAction::Do(OutboundStep::Login)));
    let (s, a) = outbound_step(s, OutboundEvent::LoginFinished(Err(err("handshake failed"))), &mut t);
    assert!(matches!(a, OutboundAction::Do(OutboundStep::Onboard)));
    let (s, a) = outbound_step(s, OutboundEvent::OnboardingFinished(Ok(false)), &mut t);
    match a {
        OutboundAction::RetryLater(ev, e) => {
            assert_eq!(ev.phase, OutboundFailurePhase::Handshake);
            assert_eq!(e.message(), "handshake failed");
        }
        _ => panic!("expected a retry"),
    }
    let (s, _) = outbound_step(s, OutboundEvent::Connected, &mut t);
    let (s, _) = outbound_step(s, OutboundEvent::FlowReceived(false), &mut t);
    let (s, a) = outbound_step(s, OutboundEvent::LoginFinished(Ok(())), &mut t);
    assert!(matches!(a, OutboundAction::Do(OutboundStep::Serve)));
    assert!(matches!(s, OutboundState::Serving));
    assert!(t.phase.is_none());
    let (s, a) = outbound_step(s, OutboundEvent::SocketClosed, &mut t);
    assert!(matches!(a, OutboundAction::Do(OutboundStep::Connect)));
    assert!(matches!(s, OutboundState::Connecting));
}

#[test]
fn onboarding_flow_without_failure_reconnects_at_once() {
    let mut t = OutboundRetryTracker::default();
    t.record_failure(OutboundFailurePhase::Connect);
    let (s, a) = outbound_step(OutboundState::Onboarding, OutboundEvent::OnboardingFinished(Ok(false)), &mut t);
    assert!(matches!(a, OutboundAction::Do(OutboundStep::Connect)));
    assert!(matches!(s, OutboundState::Connecting));
    assert!(t.phase.is_none());
    t.record_failure(OutboundFailurePhase::Connect);
    let (s, a) = outbound_step(OutboundState::Onboarding, OutboundEvent::OnboardingFinished(Ok(true)), &mut t);
    assert!(matches!(a, OutboundAction::Do(OutboundStep::Connect)));
    assert!(matches!(s, OutboundState::Connecting));
    assert!(t.phase.is_none());
    let (_, a) = outbound_step(
        OutboundState::Onboarding,
        OutboundEvent::OnboardingFinished(Err(err("Onboarding failed"))),
        &mut t,
    );
    match a {
        OutboundAction::RetryLater(ev, e) => {
            assert_eq!(ev.phase, OutboundFailurePhase::Onboarding);
            assert_eq!(ev.attempt, 1);
            assert_eq!(e.message(), "Onboarding failed");
        }
        _ => panic!("expected a retry"),
    }
}
