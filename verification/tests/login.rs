use periphery::login::{
    expect_login_frame, expect_login_handshake_bytes, expect_login_nonce,
    expect_login_onboarding_flow, expect_login_public_key, expect_login_success,
    expect_login_v1_passkey, expect_login_v1_passkey_flow, LoginMessage, LoginMessageKind,
    NotLoginMessage, TransportFrame,
};

#[test]
fn each_step_takes_its_own_message() {
    assert!(expect_login_success(LoginMessage::Success).is_ok());
    assert_eq!(expect_login_nonce(LoginMessage::Nonce([7; 32])).unwrap(), [7; 32]);
    assert_eq!(
        expect_login_handshake_bytes(LoginMessage::Handshake(vec![1, 2, 3])).unwrap(),
        vec![1, 2, 3]
    );
    assert!(expect_login_onboarding_flow(LoginMessage::OnboardingFlow(true)).unwrap());
    assert!(!expect_login_v1_passkey_flow(LoginMessage::V1PasskeyFlow(false)).unwrap());
    assert_eq!(expect_login_v1_passkey(LoginMessage::V1Passkey(vec![9])).unwrap(), vec![9]);
    let key = mogh_pki::SpkiPublicKey::from("MCowBQYDK2VuAyEA".to_string());
    assert_eq!(
        expect_login_public_key(LoginMessage::PublicKey(key.clone())).unwrap(),
        key
    );
}

#[test]
fn other_messages_are_refused_naming_the_expected_kind() {
    let err = expect_login_success(LoginMessage::Nonce([0; 32])).unwrap_err();
    assert_eq!(err.expected, LoginMessageKind::Success);
    assert_eq!(err.message(), "Expected Login Success message, got other message type");

    let err = expect_login_nonce(LoginMessage::Success).unwrap_err();
    assert_eq!(err.message(), "Expected Login Nonce message, got other message type");

    let err = expect_login_handshake_bytes(LoginMessage::V1Passkey(vec![1])).unwrap_err();
    assert_eq!(err.message(), "Expected Login Handshake message, got other message type");

    let err = expect_login_onboarding_flow(LoginMessage::V1PasskeyFlow(true)).unwrap_err();
    assert_eq!(err.message(), "Expected Login OnboardingFlow message, got other message type");

    let err = expect_login_public_key(LoginMessage::Success).unwrap_err();
    assert_eq!(err.message(), "Expected Login PublicKey message, got other message type");

    let err = expect_login_v1_passkey_flow(LoginMessage::OnboardingFlow(true)).unwrap_err();
    assert_eq!(err.message(), "Expected Login V1PasskeyFlow message, got other message type");

    let err = expect_login_v1_passkey(LoginMessage::Handshake(vec![])).unwrap_err();
    assert_eq!(err.message(), "Expected Login V1Passkey message, got other message type");
}

#[test]
fn only_login_frames_carry_login_messages() {
    assert_eq!(expect_login_frame(TransportFrame::Login(5u8)).unwrap(), 5);
    let err = expect_login_frame::<u8>(TransportFrame::Other).unwrap_err();
    assert_eq!(err, NotLoginMessage);
    assert_eq!(err.message(), "Expected Login message, got other message type");
}
