//! Decisions of Periphery's outbound connection loop to Core.
//!
//! The loop connects to Core's websocket, receives whether to use the
//! onboarding flow, then either onboards or logs in (falling back to
//! onboarding when login fails), serves the socket, and starts over.
//! It never gives up: every failure is followed by a delay of
//! [`CONNECTION_RETRY_SECONDS`] and a new connection attempt.
//!
//! [`OutboundConnection::on_event`] takes the outcome of the step the
//! caller just performed and returns the next step, keeping one
//! [`RetryLogState`] per failure class so repeated failures are logged
//! sparingly (see [`crate::retry`]).
use vstd::prelude::*;

use crate::retry::{RetryLog, RetryLogState};

verus! {

/// Seconds to wait before reconnecting after a failure.
pub const CONNECTION_RETRY_SECONDS: u64 = 5;

/// The step of the loop in which a failure happened.
#[derive(Clone, Copy, Debug, PartialEq, Eq, Structural)]
pub enum Phase {
    WebsocketConnect,
    LoginOnboardingFlowReceive,
    OnboardingFlow,
    StandardLoginOrFallbackOnboarding,
}

impl Phase {
    /// The name under which failures of this phase are logged.
    pub fn name(&self) -> (name: &'static str)
        ensures
            name@ == match self {
                Phase::WebsocketConnect => "websocket connect"@,
                Phase::LoginOnboardingFlowReceive => "login onboarding flow receive"@,
                Phase::OnboardingFlow => "onboarding flow"@,
                Phase::StandardLoginOrFallbackOnboarding => "standard login or fallback onboarding"@,
            },
    {
        match self {
            Phase::WebsocketConnect => "websocket connect",
            Phase::LoginOnboardingFlowReceive => "login onboarding flow receive",
            Phase::OnboardingFlow => "onboarding flow",
            Phase::StandardLoginOrFallbackOnboarding => "standard login or fallback onboarding",
        }
    }
}

/// Severity with which a failure is logged.
#[derive(Clone, Copy, Debug, PartialEq, Eq, Structural)]
pub enum LogLevel {
    Warn,
    Error,
}

/// Which error a failure report carries.
#[derive(Clone, Copy, Debug, PartialEq, Eq, Structural)]
pub enum FailureCause {
    /// The websocket connection attempt failed.
    Connect,
    /// The onboarding flow message could not be received.
    OnboardingFlowReceive,
    /// Core asked for onboarding, but no onboarding key is configured.
    MissingOnboardingKey,
    /// Onboarding was attempted and failed.
    Onboarding,
    /// Login failed and no onboarding key was there to fall back on:
    /// the login error itself.
    Login,
    /// Login failed and the fallback onboarding failed too: the
    /// onboarding error, in the context of the login error.
    FallbackOnboarding,
}

/// A failure to be logged.
#[derive(Clone, Copy, Debug, PartialEq, Eq, Structural)]
pub struct FailureReport {
    pub phase: Phase,
    pub retry_count: u64,
    pub level: LogLevel,
}

/// How an onboarding attempt ended.
#[derive(Clone, Copy, Debug, PartialEq, Eq, Structural)]
pub enum OnboardingOutcome {
    /// Onboarded: the next connection should log in.
    Onboarded,
    /// No onboarding key is configured; nothing was attempted.
    NoOnboardingKey,
    /// Onboarding was attempted and failed.
    Failed,
}

/// The outcome of the step the loop just performed.
#[derive(Clone, Copy, Debug, PartialEq, Eq, Structural)]
pub enum Event {
    /// The websocket connection attempt succeeded.
    Connected,
    /// The websocket connection attempt failed.
    ConnectFailed,
    /// Connected, but the onboarding flow message did not arrive.
    OnboardingFlowReceiveFailed,
    /// Core said whether to use the onboarding flow.
    OnboardingFlowReceived(bool),
    /// The onboarding flow, which Core asked for, ended.
    OnboardingFinished(OnboardingOutcome),
    /// The standard login succeeded.
    LoginSucceeded,
    /// The standard login failed.
    LoginFailed,
    /// The onboarding tried after a failed login ended.
    FallbackOnboardingFinished(OnboardingOutcome),
    /// The logged-in socket was served until it closed.
    SocketClosed,
}

/// What the loop does next.
#[derive(Clone, Copy, Debug, PartialEq, Eq, Structural)]
pub enum Action {
    /// Connect to Core's websocket now.
    Connect,
    /// Receive whether to use the onboarding flow.
    ReceiveOnboardingFlow,
    /// Run the onboarding flow.
    Onboard,
    /// Run the standard login.
    Login,
    /// Try onboarding after the failed login.
    FallbackOnboard,
    /// Serve the logged-in socket until it closes.
    HandleSocket,
    /// Log the failure when `report` is given (the error is the one
    /// `cause` names), wait [`CONNECTION_RETRY_SECONDS`], then
    /// [`Action::Connect`].
    RetryAfterDelay { cause: FailureCause, report: Option<FailureReport> },
}

/// The three failure counters of the loop.
pub struct OutboundLog {
    pub connection: RetryLog,
    pub login: RetryLog,
    pub onboarding: RetryLog,
}

impl OutboundLog {
    pub open spec fn initial() -> OutboundLog {
        OutboundLog {
            connection: RetryLog::initial(),
            login: RetryLog::initial(),
            onboarding: RetryLog::initial(),
        }
    }

    /// No counter is at its limit.
    pub open spec fn can_count(self) -> bool {
        &&& self.connection.failures < u64::MAX
        &&& self.login.failures < u64::MAX
        &&& self.onboarding.failures < u64::MAX
    }
}

/// A report for a failure counted in `log` at `now`.
pub open spec fn report_of(log: RetryLog, now: u64, phase: Phase, level: LogLevel) -> Option<
    FailureReport,
> {
    match log.report(now) {
        Some(n) => Some(FailureReport { phase, retry_count: n as u64, level }),
        None => None,
    }
}

/// A connection failure: counted as such; when it is logged, the login
/// and onboarding counters start over, so that the next login or
/// onboarding failure is seen.
pub open spec fn connection_failure(s: OutboundLog, now: u64, phase: Phase, cause: FailureCause) -> (
    OutboundLog,
    Action,
) {
    let report = report_of(s.connection, now, phase, LogLevel::Warn);
    let connection = s.connection.after_failure(now);
    (
        if report is Some {
            OutboundLog {
                connection,
                login: RetryLog::initial(),
                onboarding: RetryLog::initial(),
            }
        } else {
            OutboundLog { connection, ..s }
        },
        Action::RetryAfterDelay { cause, report },
    )
}

/// The loop's transition: the counters after `event` at `now`, and the
/// next step.
pub open spec fn next_step(s: OutboundLog, event: Event, now: u64) -> (OutboundLog, Action) {
    match event {
        Event::Connected => (s, Action::ReceiveOnboardingFlow),
        Event::ConnectFailed => connection_failure(
            s,
            now,
            Phase::WebsocketConnect,
            FailureCause::Connect,
        ),
        Event::OnboardingFlowReceiveFailed => connection_failure(
            s,
            now,
            Phase::LoginOnboardingFlowReceive,
            FailureCause::OnboardingFlowReceive,
        ),
        Event::OnboardingFlowReceived(onboarding_flow) => (
            OutboundLog { connection: RetryLog::initial(), ..s },
            if onboarding_flow {
                Action::Onboard
            } else {
                Action::Login
            },
        ),
        Event::OnboardingFinished(outcome) => match outcome {
            OnboardingOutcome::Onboarded => (
                OutboundLog { onboarding: RetryLog::initial(), ..s },
                Action::Connect,
            ),
            _ => (
                OutboundLog { onboarding: s.onboarding.after_failure(now), ..s },
                Action::RetryAfterDelay {
                    cause: if outcome == OnboardingOutcome::NoOnboardingKey {
                        FailureCause::MissingOnboardingKey
                    } else {
                        FailureCause::Onboarding
                    },
                    report: report_of(s.onboarding, now, Phase::OnboardingFlow, LogLevel::Error),
                },
            ),
        },
        Event::LoginSucceeded => (OutboundLog { login: RetryLog::initial(), ..s }, Action::HandleSocket),
        Event::LoginFailed => (s, Action::FallbackOnboard),
        Event::FallbackOnboardingFinished(outcome) => match outcome {
            OnboardingOutcome::Onboarded => (s, Action::Connect),
            _ => (
                OutboundLog { login: s.login.after_failure(now), ..s },
                Action::RetryAfterDelay {
                    cause: if outcome == OnboardingOutcome::NoOnboardingKey {
                        FailureCause::Login
                    } else {
                        FailureCause::FallbackOnboarding
                    },
                    report: report_of(
                        s.login,
                        now,
                        Phase::StandardLoginOrFallbackOnboarding,
                        LogLevel::Warn,
                    ),
                },
            ),
        },
        Event::SocketClosed => (s, Action::Connect),
    }
}

/// The state of the outbound connection loop: its failure counters.
pub struct OutboundConnection {
    connection_errors: RetryLogState,
    login_errors: RetryLogState,
    onboarding_errors: RetryLogState,
}

impl View for OutboundConnection {
    type V = OutboundLog;

    closed spec fn view(&self) -> OutboundLog {
        OutboundLog {
            connection: self.connection_errors@,
            login: self.login_errors@,
            onboarding: self.onboarding_errors@,
        }
    }
}

/// Counts a failure in `log`, and builds its report.
fn count_failure(log: &mut RetryLogState, now: u64, phase: Phase, level: LogLevel) -> (report:
    Option<FailureReport>)
    requires
        old(log)@.failures < u64::MAX,
    ensures
        final(log)@ == old(log)@.after_failure(now),
        report == report_of(old(log)@, now, phase, level),
{
    match log.record_failure(now) {
        Some(retry_count) => Some(FailureReport { phase, retry_count, level }),
        None => None,
    }
}

impl OutboundConnection {
    /// A loop that has seen no failure yet. Its first step is [`Action::Connect`].
    pub fn new() -> (conn: OutboundConnection)
        ensures
            conn@ == OutboundLog::initial(),
    {
        OutboundConnection {
            connection_errors: RetryLogState::new(),
            login_errors: RetryLogState::new(),
            onboarding_errors: RetryLogState::new(),
        }
    }

    /// The failures counted so far: connection, login, onboarding.
    pub fn failure_counts(&self) -> (counts: (u64, u64, u64))
        ensures
            counts.0 == self@.connection.failures,
            counts.1 == self@.login.failures,
            counts.2 == self@.onboarding.failures,
    {
        (
            self.connection_errors.failures(),
            self.login_errors.failures(),
            self.onboarding_errors.failures(),
        )
    }

    /// Takes the outcome of the last step, at clock reading `now`
    /// (nanoseconds), and returns the next step.
    pub fn on_event(&mut self, event: Event, now: u64) -> (action: Action)
        requires
            old(self)@.can_count(),
        ensures
            (final(self)@, action) == next_step(old(self)@, event, now),
    {
        match event {
            Event::Connected => Action::ReceiveOnboardingFlow,
            Event::ConnectFailed => self.connection_failure(
                now,
                Phase::WebsocketConnect,
                FailureCause::Connect,
            ),
            Event::OnboardingFlowReceiveFailed => self.connection_failure(
                now,
                Phase::LoginOnboardingFlowReceive,
                FailureCause::OnboardingFlowReceive,
            ),
            Event::OnboardingFlowReceived(onboarding_flow) => {
                self.connection_errors.reset();
                if onboarding_flow {
                    Action::Onboard
                } else {
                    Action::Login
                }
            },
            Event::OnboardingFinished(outcome) => match outcome {
                OnboardingOutcome::Onboarded => {
                    self.onboarding_errors.reset();
                    Action::Connect
                },
                OnboardingOutcome::NoOnboardingKey => {
                    let report = count_failure(
                        &mut self.onboarding_errors,
                        now,
                        Phase::OnboardingFlow,
                        LogLevel::Error,
                    );
                    Action::RetryAfterDelay { cause: FailureCause::MissingOnboardingKey, report }
                },
                OnboardingOutcome::Failed => {
                    let report = count_failure(
                        &mut self.onboarding_errors,
                        now,
                        Phase::OnboardingFlow,
                        LogLevel::Error,
                    );
                    Action::RetryAfterDelay { cause: FailureCause::Onboarding, report }
                },
            },
            Event::LoginSucceeded => {
                self.login_errors.reset();
                Action::HandleSocket
            },
            Event::LoginFailed => Action::FallbackOnboard,
            Event::FallbackOnboardingFinished(outcome) => match outcome {
                OnboardingOutcome::Onboarded => Action::Connect,
                OnboardingOutcome::NoOnboardingKey => {
                    let report = count_failure(
                        &mut self.login_errors,
                        now,
                        Phase::StandardLoginOrFallbackOnboarding,
                        LogLevel::Warn,
                    );
                    Action::RetryAfterDelay { cause: FailureCause::Login, report }
                },
                OnboardingOutcome::Failed => {
                    let report = count_failure(
                        &mut self.login_errors,
                        now,
                        Phase::StandardLoginOrFallbackOnboarding,
                        LogLevel::Warn,
                    );
                    Action::RetryAfterDelay { cause: FailureCause::FallbackOnboarding, report }
                },
            },
            Event::SocketClosed => Action::Connect,
        }
    }

    fn connection_failure(&mut self, now: u64, phase: Phase, cause: FailureCause) -> (action:
        Action)
        requires
            old(self)@.can_count(),
        ensures
            (final(self)@, action) == connection_failure(old(self)@, now, phase, cause),
    {
        let report = count_failure(&mut self.connection_errors, now, phase, LogLevel::Warn);
        if report.is_some() {
            self.login_errors.reset();
            self.onboarding_errors.reset();
        }
        Action::RetryAfterDelay { cause, report }
    }
}

impl Default for OutboundConnection {
    fn default() -> (conn: OutboundConnection)
        ensures
            conn@ == OutboundLog::initial(),
    {
        OutboundConnection::new()
    }
}

/// A successful websocket connect changes no failure count and is always
/// followed by receiving Core's onboarding-flow message: never by login
/// or onboarding directly.
pub proof fn lemma_connect_then_receive_onboarding_flow(s: OutboundLog, now: u64)
    ensures
        next_step(s, Event::Connected, now).0 == s,
        next_step(s, Event::Connected, now).1 == Action::ReceiveOnboardingFlow,
{
}

/// Receiving the onboarding-flow message ends a run of connection
/// failures only: the login and onboarding counts stay as they were. The
/// message alone decides between onboarding and the standard login.
pub proof fn lemma_onboarding_flow_chooses_the_flow(s: OutboundLog, onboarding_flow: bool, now: u64)
    ensures
        next_step(s, Event::OnboardingFlowReceived(onboarding_flow), now).0.connection.failures
            == 0,
        next_step(s, Event::OnboardingFlowReceived(onboarding_flow), now).0.connection.last_logged_at
            is None,
        next_step(s, Event::OnboardingFlowReceived(onboarding_flow), now).0.login == s.login,
        next_step(s, Event::OnboardingFlowReceived(onboarding_flow), now).0.onboarding
            == s.onboarding,
        next_step(s, Event::OnboardingFlowReceived(onboarding_flow), now).1 == (if onboarding_flow {
            Action::Onboard
        } else {
            Action::Login
        }),
{
}

/// The steps that neither fail nor succeed a class leave every count
/// alone: a failed login moves on to the fallback onboarding, a closed
/// socket and a successful fallback onboarding to a new connection at
/// once (no delay, nothing logged).
pub proof fn lemma_passing_steps_keep_counts(s: OutboundLog, now: u64)
    ensures
        next_step(s, Event::LoginFailed, now) == (s, Action::FallbackOnboard),
        next_step(s, Event::SocketClosed, now) == (s, Action::Connect),
        next_step(s, Event::FallbackOnboardingFinished(OnboardingOutcome::Onboarded), now) == (
            s,
            Action::Connect,
        ),
{
}

/// A success starts its own class over and no other: a successful login
/// is followed by serving the socket, a successful onboarding by a new
/// connection at once.
pub proof fn lemma_success_touches_only_its_class(s: OutboundLog, now: u64)
    ensures
        next_step(s, Event::LoginSucceeded, now).0.connection == s.connection,
        next_step(s, Event::LoginSucceeded, now).0.onboarding == s.onboarding,
        next_step(s, Event::LoginSucceeded, now).0.login.failures == 0,
        next_step(s, Event::LoginSucceeded, now).0.login.last_logged_at is None,
        next_step(s, Event::LoginSucceeded, now).1 == Action::HandleSocket,
        next_step(s, Event::OnboardingFinished(OnboardingOutcome::Onboarded), now).0.connection
            == s.connection,
        next_step(s, Event::OnboardingFinished(OnboardingOutcome::Onboarded), now).0.login
            == s.login,
        next_step(s, Event::OnboardingFinished(OnboardingOutcome::Onboarded), now).0.onboarding.failures
            == 0,
        next_step(s, Event::OnboardingFinished(OnboardingOutcome::Onboarded), now).0.onboarding.last_logged_at
            is None,
        next_step(s, Event::OnboardingFinished(OnboardingOutcome::Onboarded), now).1
            == Action::Connect,
{
}

/// Whether the failure that brings a class's count to `n` at `now`, after
/// a last report at `last_logged_at`, is logged: the first, every 12th,
/// or one 60 s or more after the last report.
pub open spec fn logged_failure(n: nat, last_logged_at: Option<u64>, now: u64) -> bool {
    n == 1 || n % 12 == 0 || (last_logged_at matches Some(last) && now >= last
        + 60_000_000_000)
}

/// A connection failure (the connect, or receiving the onboarding-flow
/// message) adds one to the connection count and is retried after the
/// delay; it is logged as a warning of its phase, with the new count,
/// exactly when the policy says so; only then do the login and
/// onboarding counts start over, else they stay as they were.
pub proof fn lemma_connection_failure_policy(s: OutboundLog, event: Event, now: u64)
    requires
        event == Event::ConnectFailed || event == Event::OnboardingFlowReceiveFailed,
        s.can_count(),
    ensures
        ({
            let (after, action) = next_step(s, event, now);
            let n = s.connection.failures + 1;
            let logged = logged_failure(n, s.connection.last_logged_at, now);
            let phase = if event == Event::ConnectFailed {
                Phase::WebsocketConnect
            } else {
                Phase::LoginOnboardingFlowReceive
            };
            let cause = if event == Event::ConnectFailed {
                FailureCause::Connect
            } else {
                FailureCause::OnboardingFlowReceive
            };
            &&& after.connection.failures == n
            &&& action == Action::RetryAfterDelay {
                cause,
                report: if logged {
                    Some(FailureReport { phase, retry_count: n as u64, level: LogLevel::Warn })
                } else {
                    None
                },
            }
            &&& logged ==> after.login.failures == 0 && after.login.last_logged_at is None
                && after.onboarding.failures == 0 && after.onboarding.last_logged_at is None
            &&& !logged ==> after.login == s.login && after.onboarding == s.onboarding
        }),
{
    crate::retry::lemma_failure_log_policy(s.connection, now);
}

/// A failed onboarding (no key, or the flow failed) adds one to the
/// onboarding count only, and is retried after the delay; it is logged
/// as an error of the onboarding phase, with the new count, exactly when
/// the policy says so.
pub proof fn lemma_onboarding_failure_policy(s: OutboundLog, outcome: OnboardingOutcome, now: u64)
    requires
        outcome != OnboardingOutcome::Onboarded,
        s.can_count(),
    ensures
        ({
            let (after, action) = next_step(s, Event::OnboardingFinished(outcome), now);
            let n = s.onboarding.failures + 1;
            let logged = logged_failure(n, s.onboarding.last_logged_at, now);
            &&& after.connection == s.connection
            &&& after.login == s.login
            &&& after.onboarding.failures == n
            &&& action == Action::RetryAfterDelay {
                cause: if outcome == OnboardingOutcome::NoOnboardingKey {
                    FailureCause::MissingOnboardingKey
                } else {
                    FailureCause::Onboarding
                },
                report: if logged {
                    Some(
                        FailureReport {
                            phase: Phase::OnboardingFlow,
                            retry_count: n as u64,
                            level: LogLevel::Error,
                        },
                    )
                } else {
                    None
                },
            }
        }),
{
    crate::retry::lemma_failure_log_policy(s.onboarding, now);
}

/// A failed login whose fallback onboarding did not onboard adds one to
/// the login count only, and is retried after the delay; it is logged as
/// a warning with the new count exactly when the policy says so, carrying
/// the login error when there was no onboarding key, else the onboarding
/// error.
pub proof fn lemma_login_failure_policy(s: OutboundLog, outcome: OnboardingOutcome, now: u64)
    requires
        outcome != OnboardingOutcome::Onboarded,
        s.can_count(),
    ensures
        ({
            let (after, action) = next_step(s, Event::FallbackOnboardingFinished(outcome), now);
            let n = s.login.failures + 1;
            let logged = logged_failure(n, s.login.last_logged_at, now);
            &&& after.connection == s.connection
            &&& after.onboarding == s.onboarding
            &&& after.login.failures == n
            &&& action == Action::RetryAfterDelay {
                cause: if outcome == OnboardingOutcome::NoOnboardingKey {
                    FailureCause::Login
                } else {
                    FailureCause::FallbackOnboarding
                },
                report: if logged {
                    Some(
                        FailureReport {
                            phase: Phase::StandardLoginOrFallbackOnboarding,
                            retry_count: n as u64,
                            level: LogLevel::Warn,
                        },
                    )
                } else {
                    None
                },
            }
        }),
{
    crate::retry::lemma_failure_log_policy(s.login, now);
}

/// The loop never gives up: every failure is followed by a delayed
/// reconnect, every success by the next step at once, and no step is
/// ever skipped back to nothing.
pub proof fn lemma_failures_retry_after_delay(s: OutboundLog, event: Event, now: u64)
    ensures
        (next_step(s, event, now).1 is RetryAfterDelay) <==> (match event {
            Event::ConnectFailed | Event::OnboardingFlowReceiveFailed => true,
            Event::OnboardingFinished(o) | Event::FallbackOnboardingFinished(o) => o
                != OnboardingOutcome::Onboarded,
            _ => false,
        }),
{
}

/// Receiving the onboarding flow message ends a run of connection
/// failures; a successful login ends a run of login failures; a
/// successful onboarding ends a run of onboarding failures. The next
/// failure of that class is then reported as the first.
pub proof fn lemma_success_restarts_its_count(s: OutboundLog, now: u64, later: u64)
    ensures
        next_step(s, Event::OnboardingFlowReceived(true), now).0.connection == RetryLog::initial(),
        next_step(s, Event::OnboardingFlowReceived(false), now).0.connection == RetryLog::initial(),
        next_step(s, Event::LoginSucceeded, now).0.login == RetryLog::initial(),
        next_step(s, Event::OnboardingFinished(OnboardingOutcome::Onboarded), now).0.onboarding
            == RetryLog::initial(),
        next_step(next_step(s, Event::LoginSucceeded, now).0, Event::FallbackOnboardingFinished(OnboardingOutcome::NoOnboardingKey), later).1
            == (Action::RetryAfterDelay {
            cause: FailureCause::Login,
            report: Some(
                FailureReport {
                    phase: Phase::StandardLoginOrFallbackOnboarding,
                    retry_count: 1,
                    level: LogLevel::Warn,
                },
            ),
        }),
{
}

/// A logged connection failure starts the login and onboarding counts
/// over, so the first login or onboarding failure after the connection
/// recovers is seen.
pub proof fn lemma_logged_connection_failure_restarts_others(
    s: OutboundLog,
    event: Event,
    now: u64,
)
    requires
        event == Event::ConnectFailed || event == Event::OnboardingFlowReceiveFailed,
        (s.connection.report(now) is Some),
    ensures
        next_step(s, event, now).0.login == RetryLog::initial(),
        next_step(s, event, now).0.onboarding == RetryLog::initial(),
{
}

/// Each failure is counted in exactly its own class, and a report always
/// carries the count of that class after the failure.
pub proof fn lemma_failure_counted_in_its_class(s: OutboundLog, event: Event, now: u64)
    requires
        s.can_count(),
    ensures
        (match next_step(s, event, now).1 {
            Action::RetryAfterDelay { cause, report } => {
                let after = next_step(s, event, now).0;
                let counted = match cause {
                    FailureCause::Connect | FailureCause::OnboardingFlowReceive => after.connection,
                    FailureCause::MissingOnboardingKey | FailureCause::Onboarding => after.onboarding,
                    _ => after.login,
                };
                report matches Some(r) ==> r.retry_count == counted.failures
            },
            _ => true,
        }),
{
}

/// The error when Core asks for onboarding but no onboarding key is
/// configured.
pub fn missing_onboarding_key_message(connect_as: &str) -> (message: String)
    ensures
        message@ == "Server '"@ + connect_as@
            + "' does not exist or is misconfigured, and no PERIPHERY_ONBOARDING_KEY is provided."@,
{
    let mut message = String::from_str("Server '");
    message.append(connect_as);
    message.append(
        "' does not exist or is misconfigured, and no PERIPHERY_ONBOARDING_KEY is provided.",
    );
    message
}

/// The context under which a failed fallback onboarding is reported,
/// carrying the text of the login error that led to it.
pub fn fallback_onboarding_context(login_error: &str) -> (context: String)
    ensures
        context@ == "Standard login failed before fallback onboarding | "@ + login_error@,
{
    let mut context = String::from_str("Standard login failed before fallback onboarding | ");
    context.append(login_error);
    context
}

/// The steps of the onboarding flow, in order.
#[derive(Clone, Copy, Debug, PartialEq, Eq, Structural)]
pub enum OnboardingStage {
    /// Log in with the onboarding key.
    Login,
    /// Send Periphery's public key.
    SendPublicKey,
    /// Receive Core's onboarding result.
    ReceiveResult,
}

impl OnboardingStage {
    /// The context under which a failure of this step is reported.
    pub fn failure_context(&self) -> (text: &'static str)
        ensures
            text@ == match self {
                OnboardingStage::Login => "Onboarding failed"@,
                OnboardingStage::SendPublicKey => "Failed to send public key bytes"@,
                OnboardingStage::ReceiveResult => "Failed to receive Server onboarding result"@,
            },
    {
        match self {
            OnboardingStage::Login => "Onboarding failed",
            OnboardingStage::SendPublicKey => "Failed to send public key bytes",
            OnboardingStage::ReceiveResult => "Failed to receive Server onboarding result",
        }
    }
}

/// What the onboarding flow does next.
#[derive(Clone, Copy, Debug, PartialEq, Eq, Structural)]
pub enum OnboardingStep {
    /// Perform this step.
    Perform(OnboardingStage),
    /// The flow ended: `true` when onboarded, `false` when there was no
    /// onboarding key to try.
    Finished(bool),
    /// The flow failed at this step.
    Failed(OnboardingStage),
}

/// The flow starts by logging in with the onboarding key, or ends at
/// once (not onboarded) when none is configured.
pub fn onboarding_begin(has_onboarding_key: bool) -> (step: OnboardingStep)
    ensures
        step == (if has_onboarding_key {
            OnboardingStep::Perform(OnboardingStage::Login)
        } else {
            OnboardingStep::Finished(false)
        }),
{
    if has_onboarding_key {
        OnboardingStep::Perform(OnboardingStage::Login)
    } else {
        OnboardingStep::Finished(false)
    }
}

pub open spec fn onboarding_next(stage: OnboardingStage, succeeded: bool) -> OnboardingStep {
    if !succeeded {
        OnboardingStep::Failed(stage)
    } else {
        match stage {
            OnboardingStage::Login => OnboardingStep::Perform(OnboardingStage::SendPublicKey),
            OnboardingStage::SendPublicKey => OnboardingStep::Perform(OnboardingStage::ReceiveResult),
            OnboardingStage::ReceiveResult => OnboardingStep::Finished(true),
        }
    }
}

/// The step after `stage` succeeded or failed.
pub fn onboarding_advance(stage: OnboardingStage, succeeded: bool) -> (step: OnboardingStep)
    ensures
        step == onboarding_next(stage, succeeded),
{
    if !succeeded {
        OnboardingStep::Failed(stage)
    } else {
        match stage {
            OnboardingStage::Login => OnboardingStep::Perform(OnboardingStage::SendPublicKey),
            OnboardingStage::SendPublicKey => OnboardingStep::Perform(OnboardingStage::ReceiveResult),
            OnboardingStage::ReceiveResult => OnboardingStep::Finished(true),
        }
    }
}

/// Where the flow stands after the steps performed so far reported
/// `results`, starting from `step`.
pub open spec fn onboarding_run(step: OnboardingStep, results: Seq<bool>) -> OnboardingStep
    decreases results.len(),
{
    if results.len() == 0 {
        step
    } else {
        match step {
            OnboardingStep::Perform(stage) => onboarding_run(
                onboarding_next(stage, results[0]),
                results.drop_first(),
            ),
            _ => step,
        }
    }
}

/// With an onboarding key, the flow reports onboarded exactly when its
/// three steps (login, send public key, receive the result) all
/// succeeded, in this order; a failure stops the flow at its step.
pub proof fn lemma_onboarded_only_after_every_step(a: bool, b: bool, c: bool)
    ensures
        onboarding_run(OnboardingStep::Perform(OnboardingStage::Login), seq![a, b, c])
            == OnboardingStep::Finished(true) <==> a && b && c,
        !a ==> onboarding_run(OnboardingStep::Perform(OnboardingStage::Login), seq![a, b, c])
            == OnboardingStep::Failed(OnboardingStage::Login),
        a && !b ==> onboarding_run(OnboardingStep::Perform(OnboardingStage::Login), seq![a, b, c])
            == OnboardingStep::Failed(OnboardingStage::SendPublicKey),
        a && b && !c ==> onboarding_run(
            OnboardingStep::Perform(OnboardingStage::Login),
            seq![a, b, c],
        ) == OnboardingStep::Failed(OnboardingStage::ReceiveResult),
{
    reveal_with_fuel(onboarding_run, 4);
    let s = seq![a, b, c];
    assert(s.drop_first() =~= seq![b, c]);
    assert(seq![b, c].drop_first() =~= seq![c]);
    assert(seq![c].drop_first() =~= Seq::<bool>::empty());
}

} // verus!
