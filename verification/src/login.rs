//! Checks on the messages of the Core / Periphery login exchange.
//!
//! Each step of the login expects one kind of message; anything else
//! fails the login with an error naming the kind that was expected.
use vstd::prelude::*;

use mogh_pki::SpkiPublicKey;

verus! {

/// Declares `mogh_pki::SpkiPublicKey` (a public key in its encoded
/// string form) as an opaque type: a `PublicKey` message carries it
/// through unchanged, and nothing here looks inside it.
#[verifier::external_type_specification]
#[verifier::external_body]
pub struct ExSpkiPublicKey(mogh_pki::SpkiPublicKey);

/// A message of the login exchange.
#[derive(Debug)]
pub enum LoginMessage {
    Success,
    Nonce([u8; 32]),
    Handshake(Vec<u8>),
    OnboardingFlow(bool),
    PublicKey(SpkiPublicKey),
    V1PasskeyFlow(bool),
    V1Passkey(Vec<u8>),
}

/// The kinds of [`LoginMessage`].
#[derive(Clone, Copy, Debug, PartialEq, Eq, Structural)]
pub enum LoginMessageKind {
    Success,
    Nonce,
    Handshake,
    OnboardingFlow,
    PublicKey,
    V1PasskeyFlow,
    V1Passkey,
}

/// A frame of the transport: a login message, or anything else.
pub enum TransportFrame<L> {
    Login(L),
    Other,
}

/// The frame received during login was not a login message.
#[derive(Clone, Copy, Debug, PartialEq, Eq, Structural)]
pub struct NotLoginMessage;

impl NotLoginMessage {
    pub fn message(&self) -> (text: &'static str)
        ensures
            text@ == "Expected Login message, got other message type"@,
    {
        "Expected Login message, got other message type"
    }
}

/// A login message of another kind than the one expected arrived.
#[derive(Clone, Copy, Debug, PartialEq, Eq, Structural)]
pub struct UnexpectedLoginMessage {
    pub expected: LoginMessageKind,
}

pub open spec fn unexpected_message_text(expected: LoginMessageKind) -> Seq<char> {
    match expected {
        LoginMessageKind::Success => "Expected Login Success message, got other message type"@,
        LoginMessageKind::Nonce => "Expected Login Nonce message, got other message type"@,
        LoginMessageKind::Handshake => "Expected Login Handshake message, got other message type"@,
        LoginMessageKind::OnboardingFlow =>
            "Expected Login OnboardingFlow message, got other message type"@,
        LoginMessageKind::PublicKey => "Expected Login PublicKey message, got other message type"@,
        LoginMessageKind::V1PasskeyFlow =>
            "Expected Login V1PasskeyFlow message, got other message type"@,
        LoginMessageKind::V1Passkey => "Expected Login V1Passkey message, got other message type"@,
    }
}

impl UnexpectedLoginMessage {
    /// The error text, naming the kind that was expected.
    pub fn message(&self) -> (text: &'static str)
        ensures
            text@ == unexpected_message_text(self.expected),
    {
        match self.expected {
            LoginMessageKind::Success => "Expected Login Success message, got other message type",
            LoginMessageKind::Nonce => "Expected Login Nonce message, got other message type",
            LoginMessageKind::Handshake => "Expected Login Handshake message, got other message type",
            LoginMessageKind::OnboardingFlow =>
                "Expected Login OnboardingFlow message, got other message type",
            LoginMessageKind::PublicKey => "Expected Login PublicKey message, got other message type",
            LoginMessageKind::V1PasskeyFlow =>
                "Expected Login V1PasskeyFlow message, got other message type",
            LoginMessageKind::V1Passkey => "Expected Login V1Passkey message, got other message type",
        }
    }
}

/// The login message a frame carries.
pub fn expect_login_frame<L>(frame: TransportFrame<L>) -> (res: Result<L, NotLoginMessage>)
    ensures
        match frame {
            TransportFrame::Login(message) => res == Ok::<L, NotLoginMessage>(message),
            TransportFrame::Other => res == Err::<L, NotLoginMessage>(NotLoginMessage),
        },
{
    match frame {
        TransportFrame::Login(message) => Ok(message),
        TransportFrame::Other => Err(NotLoginMessage),
    }
}

/// The error for a message that is not of kind `expected`.
pub open spec fn unexpected(expected: LoginMessageKind) -> UnexpectedLoginMessage {
    UnexpectedLoginMessage { expected }
}

/// Login succeeded when the message is `Success`.
pub fn expect_login_success(message: LoginMessage) -> (res: Result<(), UnexpectedLoginMessage>)
    ensures
        match message {
            LoginMessage::Success => res is Ok,
            _ => res == Err::<(), _>(unexpected(LoginMessageKind::Success)),
        },
{
    match message {
        LoginMessage::Success => Ok(()),
        _ => Err(UnexpectedLoginMessage { expected: LoginMessageKind::Success }),
    }
}

/// The nonce of a `Nonce` message.
pub fn expect_login_nonce(message: LoginMessage) -> (res: Result<[u8; 32], UnexpectedLoginMessage>)
    ensures
        match message {
            LoginMessage::Nonce(nonce) => res == Ok::<[u8; 32], UnexpectedLoginMessage>(nonce),
            _ => res == Err::<[u8; 32], _>(unexpected(LoginMessageKind::Nonce)),
        },
{
    match message {
        LoginMessage::Nonce(nonce) => Ok(nonce),
        _ => Err(UnexpectedLoginMessage { expected: LoginMessageKind::Nonce }),
    }
}

/// The handshake bytes of a `Handshake` message.
pub fn expect_login_handshake_bytes(message: LoginMessage) -> (res: Result<
    Vec<u8>,
    UnexpectedLoginMessage,
>)
    ensures
        match message {
            LoginMessage::Handshake(bytes) => res == Ok::<Vec<u8>, UnexpectedLoginMessage>(bytes),
            _ => res == Err::<Vec<u8>, _>(unexpected(LoginMessageKind::Handshake)),
        },
{
    match message {
        LoginMessage::Handshake(bytes) => Ok(bytes),
        _ => Err(UnexpectedLoginMessage { expected: LoginMessageKind::Handshake }),
    }
}

/// Whether an `OnboardingFlow` message asks for the onboarding flow.
pub fn expect_login_onboarding_flow(message: LoginMessage) -> (res: Result<
    bool,
    UnexpectedLoginMessage,
>)
    ensures
        match message {
            LoginMessage::OnboardingFlow(flow) => res == Ok::<bool, UnexpectedLoginMessage>(flow),
            _ => res == Err::<bool, _>(unexpected(LoginMessageKind::OnboardingFlow)),
        },
{
    match message {
        LoginMessage::OnboardingFlow(flow) => Ok(flow),
        _ => Err(UnexpectedLoginMessage { expected: LoginMessageKind::OnboardingFlow }),
    }
}

/// The public key of a `PublicKey` message.
pub fn expect_login_public_key(message: LoginMessage) -> (res: Result<
    SpkiPublicKey,
    UnexpectedLoginMessage,
>)
    ensures
        match message {
            LoginMessage::PublicKey(key) => res == Ok::<SpkiPublicKey, UnexpectedLoginMessage>(key),
            _ => res == Err::<SpkiPublicKey, _>(unexpected(LoginMessageKind::PublicKey)),
        },
{
    match message {
        LoginMessage::PublicKey(key) => Ok(key),
        _ => Err(UnexpectedLoginMessage { expected: LoginMessageKind::PublicKey }),
    }
}

/// Whether a `V1PasskeyFlow` message asks for the v1 passkey flow.
pub fn expect_login_v1_passkey_flow(message: LoginMessage) -> (res: Result<
    bool,
    UnexpectedLoginMessage,
>)
    ensures
        match message {
            LoginMessage::V1PasskeyFlow(flow) => res == Ok::<bool, UnexpectedLoginMessage>(flow),
            _ => res == Err::<bool, _>(unexpected(LoginMessageKind::V1PasskeyFlow)),
        },
{
    match message {
        LoginMessage::V1PasskeyFlow(flow) => Ok(flow),
        _ => Err(UnexpectedLoginMessage { expected: LoginMessageKind::V1PasskeyFlow }),
    }
}

/// The passkey bytes of a `V1Passkey` message.
pub fn expect_login_v1_passkey(message: LoginMessage) -> (res: Result<
    Vec<u8>,
    UnexpectedLoginMessage,
>)
    ensures
        match message {
            LoginMessage::V1Passkey(bytes) => res == Ok::<Vec<u8>, UnexpectedLoginMessage>(bytes),
            _ => res == Err::<Vec<u8>, _>(unexpected(LoginMessageKind::V1Passkey)),
        },
{
    match message {
        LoginMessage::V1Passkey(bytes) => Ok(bytes),
        _ => Err(UnexpectedLoginMessage { expected: LoginMessageKind::V1Passkey }),
    }
}

} // verus!
