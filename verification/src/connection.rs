//! The outbound connection from a periphery agent to core: which phase a
//! failure happened in, when repeated failures are worth logging, and the
//! messages and endpoint involved.
use vstd::prelude::*;
use vstd::utf8::encode_utf8;

use crate::report::{strings_of, ErrorChain};
use crate::text::{ascii_lower_seq, ascii_lowercase, chars_of, contains, contains_seq, push_str, string_of};

verus! {

/// Where an outbound connection attempt failed.
#[derive(Debug, Clone, Copy, PartialEq, Eq, Structural)]
pub enum OutboundFailurePhase {
    Connect,
    OnboardingFlow,
    Handshake,
    Login,
    Onboarding,
}

pub open spec fn phase_name(phase: OutboundFailurePhase) -> Seq<char> {
    match phase {
        OutboundFailurePhase::Connect => "connect"@,
        OutboundFailurePhase::OnboardingFlow => "onboarding_flow"@,
        OutboundFailurePhase::Handshake => "handshake"@,
        OutboundFailurePhase::Login => "login"@,
        OutboundFailurePhase::Onboarding => "onboarding"@,
    }
}

impl OutboundFailurePhase {
    pub fn as_str(self) -> (r: &'static str)
        ensures
            r@ == phase_name(self),
    {
        match self {
            OutboundFailurePhase::Connect => "connect",
            OutboundFailurePhase::OnboardingFlow => "onboarding_flow",
            OutboundFailurePhase::Handshake => "handshake",
            OutboundFailurePhase::Login => "login",
            OutboundFailurePhase::Onboarding => "onboarding",
        }
    }
}

/// Why a failure is logged: it is the first of a run, or the run keeps going.
#[derive(Debug, Clone, Copy, PartialEq, Eq, Structural)]
pub enum OutboundRetryLogDecision {
    FirstFailure,
    StillFailing,
}

/// One recorded failure: its phase, its number within the current run of
/// failures in that phase, and whether to log it.
#[derive(Debug, Clone, Copy, PartialEq, Eq, Structural)]
pub struct OutboundRetryEvent {
    pub phase: OutboundFailurePhase,
    pub attempt: usize,
    pub log_decision: Option<OutboundRetryLogDecision>,
}

/// A failure is logged when it starts a run, then every tenth attempt.
pub open spec fn log_decision_for(attempt: nat) -> Option<OutboundRetryLogDecision> {
    if attempt == 1 {
        Some(OutboundRetryLogDecision::FirstFailure)
    } else if attempt % 10 == 0 {
        Some(OutboundRetryLogDecision::StillFailing)
    } else {
        None
    }
}

/// Counts consecutive failures in the same phase.
pub struct OutboundRetryTracker {
    pub phase: Option<OutboundFailurePhase>,
    pub attempt: usize,
}

/// The attempt number after a failure in `phase`: one more in the same phase,
/// else a new run starting at 1.
pub open spec fn next_attempt(tracker: OutboundRetryTracker, phase: OutboundFailurePhase) -> nat {
    if tracker.phase == Some(phase) {
        (tracker.attempt + 1) as nat
    } else {
        1
    }
}

impl Default for OutboundRetryTracker {
    fn default() -> (r: Self)
        ensures
            r.phase is None,
            r.attempt == 0,
    {
        OutboundRetryTracker { phase: None, attempt: 0 }
    }
}

impl OutboundRetryTracker {
    /// Records a failure in `phase` and says whether to log it.
    pub fn record_failure(&mut self, phase: OutboundFailurePhase) -> (r: OutboundRetryEvent)
        requires
            old(self).phase == Some(phase) ==> old(self).attempt < usize::MAX,
        ensures
            final(self).phase == Some(phase),
            final(self).attempt == next_attempt(*old(self), phase),
            r.phase == phase,
            r.attempt == final(self).attempt,
            r.log_decision == log_decision_for(r.attempt as nat),
    {
        if self.phase == Some(phase) {
            self.attempt = self.attempt + 1;
        } else {
            self.phase = Some(phase);
            self.attempt = 1;
        }
        let log_decision = if self.attempt == 1 {
            Some(OutboundRetryLogDecision::FirstFailure)
        } else if self.attempt % 10 == 0 {
            Some(OutboundRetryLogDecision::StillFailing)
        } else {
            None
        };
        OutboundRetryEvent { phase, attempt: self.attempt, log_decision }
    }

    /// Forgets the current run of failures (after a successful connection).
    pub fn reset(&mut self)
        ensures
            final(self).phase is None,
            final(self).attempt == 0,
    {
        self.phase = None;
        self.attempt = 0;
    }
}

/// A login failure mentions the handshake when any message in its chain
/// contains "handshake" or "nonce", ignoring ASCII case.
pub open spec fn mentions_handshake(chain: Seq<Seq<char>>) -> bool {
    exists|i: int|
        0 <= i < chain.len() && (contains_seq(ascii_lower_seq(#[trigger] chain[i]), "handshake"@)
            || contains_seq(ascii_lower_seq(chain[i]), "nonce"@))
}

/// Attributes a failed login to the handshake or to the login itself.
pub fn classify_login_failure_phase(error: &ErrorChain) -> (r: OutboundFailurePhase)
    ensures
        r == (if mentions_handshake(error.view_chain()) {
            OutboundFailurePhase::Handshake
        } else {
            OutboundFailurePhase::Login
        }),
{
    let handshake = chars_of("handshake");
    let nonce = chars_of("nonce");
    let ghost cv = error.view_chain();
    for i in 0..error.chain.len()
        invariant
            cv == error.view_chain(),
            handshake@ == "handshake"@,
            nonce@ == "nonce"@,
            forall|k: int|
                0 <= k < i ==> !(contains_seq(ascii_lower_seq(#[trigger] cv[k]), "handshake"@)
                    || contains_seq(ascii_lower_seq(cv[k]), "nonce"@)),
    {
        let cause = chars_of(error.chain[i].as_str());
        let lower = ascii_lowercase(&cause);
        assert(cv[i as int] == error.chain@[i as int]@);
        if contains(&lower, &handshake) || contains(&lower, &nonce) {
            return OutboundFailurePhase::Handshake;
        }
    }
    OutboundFailurePhase::Login
}

// ----- the error shown when connecting is refused -----

pub open spec fn refusal_message(status: u16, server: Seq<char>) -> Option<Seq<char>> {
    if status == 404 {
        Some("404 Not Found: Server '"@ + server + "' does not exist."@)
    } else if status == 400 {
        Some("400 Bad Request: Server '"@ + server
            + "' is disabled or configured to make Core → Periphery connection"@)
    } else if status == 401 {
        Some("401 Unauthorized: Only one Server connected as '"@ + server
            + "' is allowed. Or the Core reverse proxy needs to forward host and websocket headers."@)
    } else {
        None
    }
}

/// The error for a refused connection: a known HTTP status gets a message
/// naming the server; any other keeps the transport's own error.
pub fn connect_error(status: u16, connect_as: &str, error: ErrorChain) -> (r: ErrorChain)
    ensures
        refusal_message(status, connect_as@) matches Some(m) ==> r.view_chain() == seq![m],
        refusal_message(status, connect_as@) is None ==> r.view_chain() == error.view_chain(),
{
    let mut m: Vec<char> = Vec::new();
    if status == 404 {
        push_str(&mut m, "404 Not Found: Server '");
        push_str(&mut m, connect_as);
        push_str(&mut m, "' does not exist.");
    } else if status == 400 {
        push_str(&mut m, "400 Bad Request: Server '");
        push_str(&mut m, connect_as);
        push_str(&mut m, "' is disabled or configured to make Core → Periphery connection");
    } else if status == 401 {
        push_str(&mut m, "401 Unauthorized: Only one Server connected as '");
        push_str(&mut m, connect_as);
        push_str(&mut m, "' is allowed. Or the Core reverse proxy needs to forward host and websocket headers.");
    } else {
        return error;
    }
    ErrorChain::single(string_of(&m))
}

// ----- the endpoint core is reached at -----

/// Bytes that stay as they are in a URL component.
pub open spec fn url_unreserved(b: u8) -> bool {
    (48 <= b && b <= 57) || (65 <= b && b <= 90) || (97 <= b && b <= 122) || b == 45 || b == 46 || b
        == 95 || b == 126
}

pub open spec fn hex_digit_upper(d: u8) -> char {
    if d < 10 {
        ((d + 48) as u8) as char
    } else {
        ((d + 55) as u8) as char
    }
}

/// Percent-encoding of bytes: unreserved bytes stay, every other byte becomes
/// '%' and two upper-case hex digits.
pub open spec fn percent_encoded(bytes: Seq<u8>) -> Seq<char>
    decreases bytes.len(),
{
    if bytes.len() == 0 {
        Seq::empty()
    } else {
        let b = bytes[0];
        (if url_unreserved(b) {
            seq![b as char]
        } else {
            seq!['%', hex_digit_upper(b / 16), hex_digit_upper(b % 16)]
        }) + percent_encoded(bytes.drop_first())
    }
}

/// Percent-encodes the UTF-8 bytes of a string (`urlencoding::encode`).
#[verifier::external_body]
fn url_encode(s: &str) -> (r: String)
    ensures
        r@ == percent_encoded(encode_utf8(s@)),
{
    urlencoding::encode(s).into_owned()
}

/// The websocket endpoint for a periphery connecting as `connect_as`.
pub fn periphery_endpoint(address: &str, connect_as: &str) -> (r: String)
    ensures
        r@ == address@ + "/ws/periphery?"@ + "server="@ + percent_encoded(encode_utf8(connect_as@)),
{
    let mut m: Vec<char> = Vec::new();
    push_str(&mut m, address);
    push_str(&mut m, "/ws/periphery?");
    push_str(&mut m, "server=");
    let encoded = url_encode(connect_as);
    push_str(&mut m, encoded.as_str());
    string_of(&m)
}

// ----- the outbound connection loop -----

/// What the connection loop does next.
#[derive(Debug, Clone, Copy, PartialEq, Eq, Structural)]
pub enum OutboundStep {
    /// Open the websocket to core.
    Connect,
    /// Receive whether core asks for the onboarding flow or the login flow.
    ReceiveFlow,
    /// Run the onboarding flow with the onboarding key, if one is configured.
    Onboard,
    /// Run the login flow.
    Login,
    /// Serve the connection until it closes.
    Serve,
}

/// Where the connection loop stands.
pub enum OutboundState {
    Connecting,
    ReceivingFlow,
    Onboarding,
    LoggingIn,
    /// The login failed with this error; onboarding is tried to repair it.
    RecoveringLogin(ErrorChain),
    Serving,
}

/// What happened to the step the loop last took.
pub enum OutboundEvent {
    ConnectFailed(ErrorChain),
    Connected,
    FlowFailed(ErrorChain),
    /// Core asked for the onboarding flow (`true`) or the login flow.
    FlowReceived(bool),
    /// Onboarding succeeded (`Ok(true)`), found no onboarding key
    /// (`Ok(false)`), or failed.
    OnboardingFinished(Result<bool, ErrorChain>),
    LoginFinished(Result<(), ErrorChain>),
    SocketClosed,
}

/// The loop's next move: a step, or a recorded failure after which it waits
/// and connects again.
pub enum OutboundAction {
    Do(OutboundStep),
    RetryLater(OutboundRetryEvent, ErrorChain),
}

pub enum OutboundStateView {
    Connecting,
    ReceivingFlow,
    Onboarding,
    LoggingIn,
    RecoveringLogin(Seq<Seq<char>>),
    Serving,
}

pub enum OutboundEventView {
    ConnectFailed(Seq<Seq<char>>),
    Connected,
    FlowFailed(Seq<Seq<char>>),
    FlowReceived(bool),
    OnboardingFinished(Result<bool, Seq<Seq<char>>>),
    LoginFinished(Result<(), Seq<Seq<char>>>),
    SocketClosed,
}

impl OutboundState {
    pub open spec fn view(self) -> OutboundStateView {
        match self {
            OutboundState::Connecting => OutboundStateView::Connecting,
            OutboundState::ReceivingFlow => OutboundStateView::ReceivingFlow,
            OutboundState::Onboarding => OutboundStateView::Onboarding,
            OutboundState::LoggingIn => OutboundStateView::LoggingIn,
            OutboundState::RecoveringLogin(e) => OutboundStateView::RecoveringLogin(e.view_chain()),
            OutboundState::Serving => OutboundStateView::Serving,
        }
    }
}

impl OutboundEvent {
    pub open spec fn view(self) -> OutboundEventView {
        match self {
            OutboundEvent::ConnectFailed(e) => OutboundEventView::ConnectFailed(e.view_chain()),
            OutboundEvent::Connected => OutboundEventView::Connected,
            OutboundEvent::FlowFailed(e) => OutboundEventView::FlowFailed(e.view_chain()),
            OutboundEvent::FlowReceived(b) => OutboundEventView::FlowReceived(b),
            OutboundEvent::OnboardingFinished(r) => OutboundEventView::OnboardingFinished(match r {
                Ok(b) => Ok(b),
                Err(e) => Err(e.view_chain()),
            }),
            OutboundEvent::LoginFinished(r) => OutboundEventView::LoginFinished(match r {
                Ok(_) => Ok(()),
                Err(e) => Err(e.view_chain()),
            }),
            OutboundEvent::SocketClosed => OutboundEventView::SocketClosed,
        }
    }
}

/// How a transition ends: with a step, with a step after forgetting the
/// failures so far, or with a failure recorded in a phase.
pub enum OutboundOutcome {
    Proceed(OutboundStep),
    ResetThen(OutboundStep),
    Fail(OutboundFailurePhase, Seq<Seq<char>>),
}

pub open spec fn login_failure_phase(chain: Seq<Seq<char>>) -> OutboundFailurePhase {
    if mentions_handshake(chain) {
        OutboundFailurePhase::Handshake
    } else {
        OutboundFailurePhase::Login
    }
}

/// The step a state is waiting on.
pub open spec fn pending_step(s: OutboundStateView) -> OutboundStep {
    match s {
        OutboundStateView::Connecting => OutboundStep::Connect,
        OutboundStateView::ReceivingFlow => OutboundStep::ReceiveFlow,
        OutboundStateView::Onboarding => OutboundStep::Onboard,
        OutboundStateView::LoggingIn => OutboundStep::Login,
        OutboundStateView::RecoveringLogin(_) => OutboundStep::Onboard,
        OutboundStateView::Serving => OutboundStep::Serve,
    }
}

/// The connection loop. Every failure is recorded in its phase and followed
/// by a new connection; a failed login first tries onboarding, and only when
/// that cannot help is the login error (or onboarding's own error) recorded,
/// as a handshake failure when it mentions the handshake. An onboarding flow
/// that does not fail forgets the failures so far and reconnects at once,
/// whether it onboarded or found no onboarding key to use; a successful login
/// forgets them too. An event that does not answer the pending step leaves
/// everything as it is.
pub open spec fn outbound_transition(s: OutboundStateView, e: OutboundEventView) -> (OutboundStateView, OutboundOutcome) {
    match (s, e) {
        (OutboundStateView::Connecting, OutboundEventView::ConnectFailed(c)) =>
            (OutboundStateView::Connecting, OutboundOutcome::Fail(OutboundFailurePhase::Connect, c)),
        (OutboundStateView::Connecting, OutboundEventView::Connected) =>
            (OutboundStateView::ReceivingFlow, OutboundOutcome::Proceed(OutboundStep::ReceiveFlow)),
        (OutboundStateView::ReceivingFlow, OutboundEventView::FlowFailed(c)) =>
            (OutboundStateView::Connecting, OutboundOutcome::Fail(OutboundFailurePhase::OnboardingFlow, c)),
        (OutboundStateView::ReceivingFlow, OutboundEventView::FlowReceived(true)) =>
            (OutboundStateView::Onboarding, OutboundOutcome::Proceed(OutboundStep::Onboard)),
        (OutboundStateView::ReceivingFlow, OutboundEventView::FlowReceived(false)) =>
            (OutboundStateView::LoggingIn, OutboundOutcome::Proceed(OutboundStep::Login)),
        (OutboundStateView::Onboarding, OutboundEventView::OnboardingFinished(Ok(_))) =>
            (OutboundStateView::Connecting, OutboundOutcome::ResetThen(OutboundStep::Connect)),
        (OutboundStateView::Onboarding, OutboundEventView::OnboardingFinished(Err(c))) =>
            (OutboundStateView::Connecting, OutboundOutcome::Fail(OutboundFailurePhase::Onboarding, c)),
        (OutboundStateView::LoggingIn, OutboundEventView::LoginFinished(Ok(_))) =>
            (OutboundStateView::Serving, OutboundOutcome::ResetThen(OutboundStep::Serve)),
        (OutboundStateView::LoggingIn, OutboundEventView::LoginFinished(Err(c))) =>
            (OutboundStateView::RecoveringLogin(c), OutboundOutcome::Proceed(OutboundStep::Onboard)),
        (OutboundStateView::RecoveringLogin(_), OutboundEventView::OnboardingFinished(Ok(true))) =>
            (OutboundStateView::Connecting, OutboundOutcome::Proceed(OutboundStep::Connect)),
        (OutboundStateView::RecoveringLogin(login), OutboundEventView::OnboardingFinished(Ok(false))) =>
            (OutboundStateView::Connecting, OutboundOutcome::Fail(login_failure_phase(login), login)),
        (OutboundStateView::RecoveringLogin(_), OutboundEventView::OnboardingFinished(Err(c))) =>
            (OutboundStateView::Connecting, OutboundOutcome::Fail(login_failure_phase(c), c)),
        (OutboundStateView::Serving, OutboundEventView::SocketClosed) =>
            (OutboundStateView::Connecting, OutboundOutcome::Proceed(OutboundStep::Connect)),
        _ => (s, OutboundOutcome::Proceed(pending_step(s))),
    }
}

fn fail_with(
    tracker: &mut OutboundRetryTracker,
    phase: OutboundFailurePhase,
    error: ErrorChain,
) -> (r: (OutboundState, OutboundAction))
    requires
        old(tracker).phase == Some(phase) ==> old(tracker).attempt < usize::MAX,
    ensures
        final(tracker).phase == Some(phase),
        final(tracker).attempt == next_attempt(*old(tracker), phase),
        r.0.view() == OutboundStateView::Connecting,
        r.1 matches OutboundAction::RetryLater(ev, err) && ev.phase == phase
            && ev.attempt == final(tracker).attempt && ev.log_decision == log_decision_for(ev.attempt as nat)
            && err.view_chain() == error.view_chain(),
{
    let ev = tracker.record_failure(phase);
    (OutboundState::Connecting, OutboundAction::RetryLater(ev, error))
}

/// One turn of the outbound connection loop: the next state, and what to do,
/// as `outbound_transition` says; failures go through the retry tracker.
pub fn outbound_step(
    state: OutboundState,
    event: OutboundEvent,
    tracker: &mut OutboundRetryTracker,
) -> (r: (OutboundState, OutboundAction))
    requires
        outbound_transition(state.view(), event.view()).1 matches OutboundOutcome::Fail(p, _)
            && old(tracker).phase == Some(p) ==> old(tracker).attempt < usize::MAX,
    ensures
        r.0.view() == outbound_transition(state.view(), event.view()).0,
        match outbound_transition(state.view(), event.view()).1 {
            OutboundOutcome::Proceed(step) => r.1 == OutboundAction::Do(step) && *final(tracker) == *old(tracker),
            OutboundOutcome::ResetThen(step) => r.1 == OutboundAction::Do(step)
                && final(tracker).phase is None && final(tracker).attempt == 0,
            OutboundOutcome::Fail(phase, chain) => (r.1 matches OutboundAction::RetryLater(ev, err)
                && ev.phase == phase && ev.attempt == next_attempt(*old(tracker), phase)
                && ev.log_decision == log_decision_for(ev.attempt as nat)
                && err.view_chain() == chain)
                && final(tracker).phase == Some(phase) && final(tracker).attempt == next_attempt(*old(tracker), phase),
        },
{
    match state {
        OutboundState::Connecting => match event {
            OutboundEvent::ConnectFailed(e) => fail_with(tracker, OutboundFailurePhase::Connect, e),
            OutboundEvent::Connected => (OutboundState::ReceivingFlow, OutboundAction::Do(OutboundStep::ReceiveFlow)),
            _ => (OutboundState::Connecting, OutboundAction::Do(OutboundStep::Connect)),
        },
        OutboundState::ReceivingFlow => match event {
            OutboundEvent::FlowFailed(e) => fail_with(tracker, OutboundFailurePhase::OnboardingFlow, e),
            OutboundEvent::FlowReceived(onboarding) => if onboarding {
                (OutboundState::Onboarding, OutboundAction::Do(OutboundStep::Onboard))
            } else {
                (OutboundState::LoggingIn, OutboundAction::Do(OutboundStep::Login))
            },
            _ => (OutboundState::ReceivingFlow, OutboundAction::Do(OutboundStep::ReceiveFlow)),
        },
        OutboundState::Onboarding => match event {
            OutboundEvent::OnboardingFinished(Ok(_)) => {
                tracker.reset();
                (OutboundState::Connecting, OutboundAction::Do(OutboundStep::Connect))
            },
            OutboundEvent::OnboardingFinished(Err(e)) => fail_with(tracker, OutboundFailurePhase::Onboarding, e),
            _ => (OutboundState::Onboarding, OutboundAction::Do(OutboundStep::Onboard)),
        },
        OutboundState::LoggingIn => match event {
            OutboundEvent::LoginFinished(Ok(())) => {
                tracker.reset();
                (OutboundState::Serving, OutboundAction::Do(OutboundStep::Serve))
            },
            OutboundEvent::LoginFinished(Err(e)) => (
                OutboundState::RecoveringLogin(e),
                OutboundAction::Do(OutboundStep::Onboard),
            ),
            _ => (OutboundState::LoggingIn, OutboundAction::Do(OutboundStep::Login)),
        },
        OutboundState::RecoveringLogin(login) => match event {
            OutboundEvent::OnboardingFinished(Ok(true)) => (
                OutboundState::Connecting,
                OutboundAction::Do(OutboundStep::Connect),
            ),
            OutboundEvent::OnboardingFinished(Ok(false)) => {
                let phase = classify_login_failure_phase(&login);
                fail_with(tracker, phase, login)
            },
            OutboundEvent::OnboardingFinished(Err(e)) => {
                let phase = classify_login_failure_phase(&e);
                fail_with(tracker, phase, e)
            },
            _ => (OutboundState::RecoveringLogin(login), OutboundAction::Do(OutboundStep::Onboard)),
        },
        OutboundState::Serving => match event {
            OutboundEvent::SocketClosed => (OutboundState::Connecting, OutboundAction::Do(OutboundStep::Connect)),
            _ => (OutboundState::Serving, OutboundAction::Do(OutboundStep::Serve)),
        },
    }
}

// ----- laws of retrying -----

/// After a reset, the next failure in any phase starts a new run at attempt 1
/// and is logged as a first failure.
pub proof fn law_reset_starts_a_new_run(phase: OutboundFailurePhase)
    ensures
        next_attempt(OutboundRetryTracker { phase: None, attempt: 0 }, phase) == 1,
        log_decision_for(1) == Some(OutboundRetryLogDecision::FirstFailure),
{
}

/// Failures in the same phase count up; a failure in another phase starts
/// over at 1.
pub proof fn law_runs_count_per_phase(tracker: OutboundRetryTracker, phase: OutboundFailurePhase)
    ensures
        tracker.phase == Some(phase) ==> next_attempt(tracker, phase) == tracker.attempt + 1,
        tracker.phase != Some(phase) ==> next_attempt(tracker, phase) == 1,
{
}

/// A run of failures is logged at its first attempt and then every tenth.
pub proof fn law_logged_attempts(attempt: nat)
    ensures
        log_decision_for(attempt) is Some <==> (attempt == 1 || attempt % 10 == 0),
{
}

/// Every recorded failure sends the loop back to connecting.
pub proof fn law_failures_reconnect(s: OutboundStateView, e: OutboundEventView)
    requires
        outbound_transition(s, e).1 is Fail,
    ensures
        outbound_transition(s, e).0 == OutboundStateView::Connecting,
{
}

/// A connection is served only right after a successful login.
pub proof fn law_serving_follows_login(s: OutboundStateView, e: OutboundEventView)
    requires
        outbound_transition(s, e).1 == OutboundOutcome::ResetThen(OutboundStep::Serve),
    ensures
        s == OutboundStateView::LoggingIn,
        e matches OutboundEventView::LoginFinished(r) && r is Ok,
{
}

} // verus!
