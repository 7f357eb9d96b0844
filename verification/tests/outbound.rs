use periphery::outbound::{
    fallback_onboarding_context, missing_onboarding_key_message, onboarding_advance,
    onboarding_begin, Action, Event, FailureCause, FailureReport, LogLevel, OnboardingOutcome,
    OnboardingStage, OnboardingStep, OutboundConnection, Phase,
};

const SEC: u64 = 1_000_000_000;

fn retry(cause: FailureCause, report: Option<(Phase, u64, LogLevel)>) -> Action {
    Action::RetryAfterDelay {
        cause,
        report: report.map(|(phase, retry_count, level)| FailureReport { phase, retry_count, level }),
    }
}

#[test]
fn a_clean_login_runs_the_socket_then_reconnects() {
    let mut conn = OutboundConnection::new();
    assert_eq!(conn.on_event(Event::OnboardingFlowReceived(false), 0), Action::Login);
    assert_eq!(conn.on_event(Event::LoginSucceeded, 0), Action::HandleSocket);
    assert_eq!(conn.on_event(Event::SocketClosed, 0), Action::Connect);
    assert_eq!(conn.failure_counts(), (0, 0, 0));
}

#[test]
fn connect_failures_are_logged_first_and_every_twelfth() {
    let mut conn = OutboundConnection::new();
    let expected_first = retry(FailureCause::Connect, Some((Phase::WebsocketConnect, 1, LogLevel::Warn)));
    assert_eq!(conn.on_event(Event::ConnectFailed, 0), expected_first);
    for i in 2..12 {
        assert_eq!(conn.on_event(Event::ConnectFailed, i * 5 * SEC / 10), retry(FailureCause::Connect, None));
    }
    assert_eq!(
        conn.on_event(Event::ConnectFailed, 6 * SEC),
        retry(FailureCause::Connect, Some((Phase::WebsocketConnect, 12, LogLevel::Warn)))
    );
}

#[test]
fn onboarding_flow_receive_failure_counts_as_a_connection_failure() {
    let mut conn = OutboundConnection::new();
    assert_eq!(
        conn.on_event(Event::ConnectFailed, 0),
        retry(FailureCause::Connect, Some((Phase::WebsocketConnect, 1, LogLevel::Warn)))
    );
    assert_eq!(
        conn.on_event(Event::OnboardingFlowReceiveFailed, SEC),
        retry(FailureCause::OnboardingFlowReceive, None)
    );
    assert_eq!(conn.failure_counts(), (2, 0, 0));
    assert_eq!(
        conn.on_event(Event::OnboardingFlowReceiveFailed, 61 * SEC),
        retry(
            FailureCause::OnboardingFlowReceive,
            Some((Phase::LoginOnboardingFlowReceive, 3, LogLevel::Warn))
        )
    );
}

#[test]
fn receiving_the_onboarding_flow_resets_connection_failures() {
    let mut conn = OutboundConnection::new();
    conn.on_event(Event::ConnectFailed, 0);
    conn.on_event(Event::ConnectFailed, SEC);
    assert_eq!(conn.on_event(Event::OnboardingFlowReceived(true), 2 * SEC), Action::Onboard);
    assert_eq!(conn.failure_counts(), (0, 0, 0));
}

#[test]
fn login_failure_falls_back_to_onboarding() {
    let mut conn = OutboundConnection::new();
    conn.on_event(Event::OnboardingFlowReceived(false), 0);
    assert_eq!(conn.on_event(Event::LoginFailed, 0), Action::FallbackOnboard);
    // onboarding fixed the key: reconnect at once, nothing counted
    assert_eq!(
        conn.on_event(Event::FallbackOnboardingFinished(OnboardingOutcome::Onboarded), 0),
        Action::Connect
    );
    assert_eq!(conn.failure_counts(), (0, 0, 0));
    // no key: the login error is reported
    assert_eq!(
        conn.on_event(Event::FallbackOnboardingFinished(OnboardingOutcome::NoOnboardingKey), SEC),
        retry(
            FailureCause::Login,
            Some((Phase::StandardLoginOrFallbackOnboarding, 1, LogLevel::Warn))
        )
    );
    // key present but onboarding failed: the onboarding error is reported
    assert_eq!(
        conn.on_event(Event::FallbackOnboardingFinished(OnboardingOutcome::Failed), 2 * SEC),
        retry(FailureCause::FallbackOnboarding, None)
    );
    assert_eq!(conn.failure_counts(), (0, 2, 0));
    assert_eq!(conn.on_event(Event::LoginSucceeded, 3 * SEC), Action::HandleSocket);
    assert_eq!(conn.failure_counts(), (0, 0, 0));
}

#[test]
fn onboarding_failures_are_logged_as_errors() {
    let mut conn = OutboundConnection::new();
    conn.on_event(Event::OnboardingFlowReceived(true), 0);
    assert_eq!(
        conn.on_event(Event::OnboardingFinished(OnboardingOutcome::NoOnboardingKey), SEC),
        retry(
            FailureCause::MissingOnboardingKey,
            Some((Phase::OnboardingFlow, 1, LogLevel::Error))
        )
    );
    assert_eq!(
        conn.on_event(Event::OnboardingFinished(OnboardingOutcome::Failed), 2 * SEC),
        retry(FailureCause::Onboarding, None)
    );
    assert_eq!(
        conn.on_event(Event::OnboardingFinished(OnboardingOutcome::Onboarded), 3 * SEC),
        Action::Connect
    );
    assert_eq!(conn.failure_counts(), (0, 0, 0));
}

#[test]
fn logged_connection_failure_resets_login_and_onboarding_counts() {
    let mut conn = OutboundConnection::new();
    conn.on_event(Event::OnboardingFlowReceived(false), 0);
    conn.on_event(Event::LoginFailed, 0);
    conn.on_event(Event::FallbackOnboardingFinished(OnboardingOutcome::NoOnboardingKey), 0);
    conn.on_event(Event::OnboardingFinished(OnboardingOutcome::Failed), 0);
    assert_eq!(conn.failure_counts(), (0, 1, 1));
    // first connection failure is logged: the others start over
    conn.on_event(Event::ConnectFailed, SEC);
    assert_eq!(conn.failure_counts(), (1, 0, 0));
    // the next login failure is seen again
    conn.on_event(Event::OnboardingFlowReceived(false), 2 * SEC);
    conn.on_event(Event::LoginFailed, 2 * SEC);
    assert_eq!(
        conn.on_event(Event::FallbackOnboardingFinished(OnboardingOutcome::NoOnboardingKey), 2 * SEC),
        retry(
            FailureCause::Login,
            Some((Phase::StandardLoginOrFallbackOnboarding, 1, LogLevel::Warn))
        )
    );
}

#[test]
fn phase_names_are_the_logged_ones() {
    assert_eq!(Phase::WebsocketConnect.name(), "websocket connect");
    assert_eq!(Phase::LoginOnboardingFlowReceive.name(), "login onboarding flow receive");
    assert_eq!(Phase::OnboardingFlow.name(), "onboarding flow");
    assert_eq!(
        Phase::StandardLoginOrFallbackOnboarding.name(),
        "standard login or fallback onboarding"
    );
}

#[test]
fn onboarding_messages() {
    assert_eq!(
        missing_onboarding_key_message("edge-1"),
        "Server 'edge-1' does not exist or is misconfigured, and no PERIPHERY_ONBOARDING_KEY is provided."
    );
    assert_eq!(
        fallback_onboarding_context("bad key"),
        "Standard login failed before fallback onboarding | bad key"
    );
}

#[test]
fn onboarding_flow_steps() {
    assert_eq!(onboarding_begin(false), OnboardingStep::Finished(false));
    let mut step = onboarding_begin(true);
    assert_eq!(step, OnboardingStep::Perform(OnboardingStage::Login));
    let mut performed = Vec::new();
    while let OnboardingStep::Perform(stage) = step {
        performed.push(stage);
        step = onboarding_advance(stage, true);
    }
    assert_eq!(step, OnboardingStep::Finished(true));
    assert_eq!(
        performed,
        vec![OnboardingStage::Login, OnboardingStage::SendPublicKey, OnboardingStage::ReceiveResult]
    );
    assert_eq!(
        onboarding_advance(OnboardingStage::SendPublicKey, false),
        OnboardingStep::Failed(OnboardingStage::SendPublicKey)
    );
    assert_eq!(OnboardingStage::Login.failure_context(), "Onboarding failed");
    assert_eq!(OnboardingStage::SendPublicKey.failure_context(), "Failed to send public key bytes");
    assert_eq!(
        OnboardingStage::ReceiveResult.failure_context(),
        "Failed to receive Server onboarding result"
    );
}
