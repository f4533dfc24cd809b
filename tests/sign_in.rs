use telechecker::auth::{AuthAction, AuthEvent, Authenticator, ConnectionStatus, SignInOutcome};
use telechecker::error::TelecheckerError;
use telechecker::provider::{CredentialSlots, SingleUse};

fn connected() -> Authenticator {
    let mut a = Authenticator::new(Some(12345), Some("SECRET-REDACTED".to_string()));
    assert_eq!(a.step(AuthEvent::Begin), AuthAction::Connect(12345, "SECRET-REDACTED".to_string()));
    assert_eq!(a.step(AuthEvent::Connected(Ok(()))), AuthAction::CheckAuthorization);
    a
}

fn awaiting_code() -> Authenticator {
    let mut a = connected();
    assert_eq!(a.step(AuthEvent::AuthorizationChecked(Ok(false))), AuthAction::RequestPhone);
    assert_eq!(a.status(), ConnectionStatus::AwaitingPhoneNumber);
    assert_eq!(
        a.step(AuthEvent::PhoneSupplied(Some("+15551230001".to_string()))),
        AuthAction::RequestLoginCode("+15551230001".to_string())
    );
    assert_eq!(a.step(AuthEvent::LoginCodeRequested(Ok(()))), AuthAction::RequestCode);
    assert_eq!(a.status(), ConnectionStatus::AwaitingUserCode);
    a
}

fn awaiting_password() -> Authenticator {
    let mut a = awaiting_code();
    assert_eq!(
        a.step(AuthEvent::CodeSupplied(Some("12345".to_string()))),
        AuthAction::SignIn("12345".to_string())
    );
    assert_eq!(
        a.step(AuthEvent::SignInReturned(SignInOutcome::PasswordRequired(Some("pet".to_string())))),
        AuthAction::RequestPassword("pet".to_string())
    );
    assert_eq!(a.status(), ConnectionStatus::AwaitingPassword);
    a
}

#[test]
fn authorized_session_skips_every_provider() {
    let mut slots = CredentialSlots::new(
        Some("+15551230001".to_string()),
        Some("12345".to_string()),
        Some("pw".to_string()),
    );
    let mut a = connected();
    let mut seen = vec![a.status()];
    let mut action = a.step(AuthEvent::AuthorizationChecked(Ok(true)));
    seen.push(a.status());
    while action != AuthAction::Done {
        action = match action {
            AuthAction::RequestPhone => a.step(AuthEvent::PhoneSupplied(slots.phone.consume().ok())),
            AuthAction::RequestCode => a.step(AuthEvent::CodeSupplied(slots.code.consume().ok())),
            AuthAction::RequestPassword(_) => {
                a.step(AuthEvent::PasswordSupplied(slots.password.consume().ok()))
            }
            other => panic!("unexpected action {other:?}"),
        };
        seen.push(a.status());
    }
    assert_eq!(a.status(), ConnectionStatus::Authorized);
    assert_eq!(seen, vec![ConnectionStatus::NotConnected, ConnectionStatus::Authorized]);
    assert!(slots.phone.is_available());
    assert!(slots.code.is_available());
    assert!(slots.password.is_available());
}

#[test]
fn sign_in_again_when_authorized_is_done() {
    let mut a = connected();
    a.step(AuthEvent::AuthorizationChecked(Ok(true)));
    assert_eq!(a.step(AuthEvent::Begin), AuthAction::Done);
    assert_eq!(a.status(), ConnectionStatus::Authorized);
}

#[test]
fn code_sign_in_saves_session() {
    let mut a = awaiting_code();
    a.step(AuthEvent::CodeSupplied(Some("12345".to_string())));
    assert_eq!(a.step(AuthEvent::SignInReturned(SignInOutcome::SignedIn)), AuthAction::SaveSession);
    assert_eq!(a.status(), ConnectionStatus::Authorized);
    assert!(!a.session_persisted());
    assert_eq!(a.step(AuthEvent::SessionSaved(true)), AuthAction::Done);
    assert!(a.session_persisted());
}

#[test]
fn failed_session_save_is_not_fatal() {
    let mut a = awaiting_code();
    a.step(AuthEvent::CodeSupplied(Some("12345".to_string())));
    a.step(AuthEvent::SignInReturned(SignInOutcome::SignedIn));
    assert_eq!(a.step(AuthEvent::SessionSaved(false)), AuthAction::Done);
    assert_eq!(a.status(), ConnectionStatus::Authorized);
    assert!(!a.session_persisted());
}

#[test]
fn password_hunter2_reaches_authorized() {
    let mut a = awaiting_password();
    assert_eq!(
        a.step(AuthEvent::PasswordSupplied(Some("hunter2".to_string()))),
        AuthAction::CheckPassword("hunter2".to_string())
    );
    assert_eq!(a.step(AuthEvent::PasswordChecked(Ok(()))), AuthAction::SaveSession);
    assert_eq!(a.status(), ConnectionStatus::Authorized);
}

#[test]
fn password_is_trimmed() {
    let mut a = awaiting_password();
    assert_eq!(
        a.step(AuthEvent::PasswordSupplied(Some("  hunter2 \n".to_string()))),
        AuthAction::CheckPassword("hunter2".to_string())
    );
}

#[test]
fn missing_hint_reads_none() {
    let mut a = awaiting_code();
    a.step(AuthEvent::CodeSupplied(Some("12345".to_string())));
    assert_eq!(
        a.step(AuthEvent::SignInReturned(SignInOutcome::PasswordRequired(None))),
        AuthAction::RequestPassword("None".to_string())
    );
}

#[test]
fn rejected_code_fails() {
    let mut a = awaiting_code();
    a.step(AuthEvent::CodeSupplied(Some("00000".to_string())));
    assert_eq!(
        a.step(AuthEvent::SignInReturned(SignInOutcome::Rejected("PHONE_CODE_INVALID".to_string()))),
        AuthAction::Fail(TelecheckerError::SignInRejected("PHONE_CODE_INVALID".to_string()))
    );
    assert_eq!(a.status(), ConnectionStatus::AwaitingUserCode);
}

#[test]
fn rejected_password_fails() {
    let mut a = awaiting_password();
    a.step(AuthEvent::PasswordSupplied(Some("wrong".to_string())));
    assert_eq!(
        a.step(AuthEvent::PasswordChecked(Err("PASSWORD_HASH_INVALID".to_string()))),
        AuthAction::Fail(TelecheckerError::SignInRejected("PASSWORD_HASH_INVALID".to_string()))
    );
}

#[test]
fn invalid_phone_fails_before_code_request() {
    let mut a = connected();
    a.step(AuthEvent::AuthorizationChecked(Ok(false)));
    assert_eq!(
        a.step(AuthEvent::PhoneSupplied(Some("call me".to_string()))),
        AuthAction::Fail(TelecheckerError::InvalidPhoneFormat)
    );
    assert_eq!(a.status(), ConnectionStatus::AwaitingPhoneNumber);
}

#[test]
fn empty_providers_fail_with_retrieval_failed() {
    let mut a = connected();
    a.step(AuthEvent::AuthorizationChecked(Ok(false)));
    assert_eq!(a.step(AuthEvent::PhoneSupplied(None)), AuthAction::Fail(TelecheckerError::RetrievalFailed));
    let mut b = awaiting_code();
    assert_eq!(b.step(AuthEvent::CodeSupplied(None)), AuthAction::Fail(TelecheckerError::RetrievalFailed));
    let mut c = awaiting_password();
    assert_eq!(
        c.step(AuthEvent::PasswordSupplied(None)),
        AuthAction::Fail(TelecheckerError::RetrievalFailed)
    );
}

#[test]
fn missing_api_info_is_requested_then_used() {
    let mut a = Authenticator::new(Some(1), None);
    assert_eq!(a.status(), ConnectionStatus::RequiresApiInfo);
    assert_eq!(a.step(AuthEvent::Begin), AuthAction::RequestServiceCredentials);
    assert_eq!(
        a.step(AuthEvent::ServiceCredentials(Some((7, "abc".to_string())))),
        AuthAction::Connect(7, "abc".to_string())
    );
    assert_eq!(a.status(), ConnectionStatus::NotConnected);
    assert_eq!(a.step(AuthEvent::Begin), AuthAction::Connect(7, "abc".to_string()));
}

#[test]
fn api_info_never_supplied_fails() {
    let mut a = Authenticator::new(None, None);
    assert_eq!(
        a.step(AuthEvent::ServiceCredentials(None)),
        AuthAction::Fail(TelecheckerError::MissingCredentials)
    );
    assert_eq!(a.status(), ConnectionStatus::RequiresApiInfo);
}

#[test]
fn service_failures_are_reported() {
    let mut a = Authenticator::new(Some(1), Some("h".to_string()));
    assert_eq!(
        a.step(AuthEvent::Connected(Err("no route".to_string()))),
        AuthAction::Fail(TelecheckerError::ServiceFailed("no route".to_string()))
    );
    let mut b = connected();
    b.step(AuthEvent::AuthorizationChecked(Ok(false)));
    b.step(AuthEvent::PhoneSupplied(Some("+15551230001".to_string())));
    assert_eq!(
        b.step(AuthEvent::LoginCodeRequested(Err("PHONE_NUMBER_BANNED".to_string()))),
        AuthAction::Fail(TelecheckerError::ServiceFailed("PHONE_NUMBER_BANNED".to_string()))
    );
}

#[test]
fn events_out_of_order_are_refused() {
    let mut a = connected();
    assert_eq!(
        a.step(AuthEvent::CodeSupplied(Some("1".to_string()))),
        AuthAction::Fail(TelecheckerError::UnexpectedEvent)
    );
    assert_eq!(a.step(AuthEvent::SessionSaved(true)), AuthAction::Fail(TelecheckerError::UnexpectedEvent));
    assert_eq!(a.status(), ConnectionStatus::NotConnected);
    let mut b = awaiting_code();
    assert_eq!(b.step(AuthEvent::Begin), AuthAction::Fail(TelecheckerError::UnexpectedEvent));
}

#[test]
fn status_names_and_default() {
    assert_eq!(ConnectionStatus::default(), ConnectionStatus::RequiresApiInfo);
    assert_eq!(ConnectionStatus::AwaitingUserCode.as_str(), "AwaitingUserCode");
    assert_eq!(ConnectionStatus::Authorized.as_str(), "Authorized");
}

#[test]
fn single_use_slot_consumed_twice_fails() {
    let mut slot = SingleUse::new("+15551230001".to_string());
    assert_eq!(slot.consume(), Ok("+15551230001".to_string()));
    assert!(!slot.is_available());
    assert_eq!(slot.consume(), Err(TelecheckerError::RetrievalFailed));
}

#[test]
fn every_credential_slot_is_single_use() {
    let mut slots = CredentialSlots::new(Some(1), Some(2), Some(3));
    assert_eq!(slots.phone.consume(), Ok(1));
    assert_eq!(slots.phone.consume(), Err(TelecheckerError::RetrievalFailed));
    assert_eq!(slots.code.consume(), Ok(2));
    assert_eq!(slots.code.consume(), Err(TelecheckerError::RetrievalFailed));
    assert_eq!(slots.password.consume(), Ok(3));
    assert_eq!(slots.password.consume(), Err(TelecheckerError::RetrievalFailed));
    let mut empty: CredentialSlots<u8> = CredentialSlots::new(None, None, None);
    assert_eq!(empty.phone.consume(), Err(TelecheckerError::RetrievalFailed));
}

#[test]
fn channel_slots_hand_out_each_receiver_once() {
    let (phone_tx, phone_rx) = tokio::sync::oneshot::channel::<String>();
    let (_code_tx, code_rx) = tokio::sync::oneshot::channel::<String>();
    let (_pass_tx, pass_rx) = tokio::sync::oneshot::channel::<String>();
    let mut slots = CredentialSlots::new(Some(phone_rx), Some(code_rx), Some(pass_rx));
    phone_tx.send("+15551230001".to_string()).unwrap();
    let mut rx = slots.phone.consume().unwrap();
    assert_eq!(rx.try_recv().unwrap(), "+15551230001");
    assert!(matches!(slots.phone.consume(), Err(TelecheckerError::RetrievalFailed)));
    assert!(slots.code.consume().is_ok());
    assert!(matches!(slots.code.consume(), Err(TelecheckerError::RetrievalFailed)));
    assert!(slots.password.consume().is_ok());
    assert!(matches!(slots.password.consume(), Err(TelecheckerError::RetrievalFailed)));
}
