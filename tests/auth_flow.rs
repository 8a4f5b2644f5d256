use wpe::{init, AuthAction, AuthEvent, AuthPhase, AuthSession, Config, SessionStart};

fn record(user_id: &str) -> Config {
    Config {
        wpengine_user_id: user_id.to_string(),
        wpengine_password: "pw".to_string(),
        wpengine_api: "https://api.wpengineapi.com/v1".to_string(),
    }
}

#[test]
fn canonical_id_is_accepted() {
    assert!(record("0123abcd-4567-89ef-0123-456789abcdef").has_canonical_id());
}

#[test]
fn malformed_ids_are_rejected() {
    assert!(!record("").has_canonical_id());
    assert!(!record("abc-123-uuid").has_canonical_id());
    assert!(!record("0123ABCD-4567-89ef-0123-456789abcdef").has_canonical_id());
    assert!(!record("0123abcd-4567-89ef-0123-456789abcdef0").has_canonical_id());
    assert!(!record("0123abcd-4567-89ef-0123-456789abcdef\n").has_canonical_id());
    assert!(!record("0123abcd_4567-89ef-0123-456789abcdef").has_canonical_id());
}

#[test]
fn init_proceeds_with_stored_login() {
    let stored = Some(record("0123abcd-4567-89ef-0123-456789abcdef"));
    assert_eq!(init(&stored), SessionStart::Proceed);
}

#[test]
fn init_asks_for_login_when_missing_or_malformed() {
    assert_eq!(init(&None), SessionStart::Login);
    assert_eq!(init(&Some(record("not-a-uuid"))), SessionStart::Login);
}

#[test]
fn ensure_with_valid_record_neither_prompts_nor_writes() {
    let (mut session, first) = AuthSession::ensure();
    assert!(matches!(first, AuthAction::ReadStored));
    let stored = Some(record("0123abcd-4567-89ef-0123-456789abcdef"));
    let next = session.next(AuthEvent::Stored(stored));
    assert!(matches!(next, AuthAction::Proceed));
    assert_eq!(session.phase(), AuthPhase::Done);
    let later = session.next(AuthEvent::Entered("x".to_string()));
    assert!(matches!(later, AuthAction::Proceed));
}

#[test]
fn ensure_without_record_prompts_once_and_writes_entries() {
    let (mut session, _) = AuthSession::ensure();
    assert!(matches!(session.next(AuthEvent::Stored(None)), AuthAction::AskUserId));
    assert!(matches!(
        session.next(AuthEvent::Entered("0123abcd-4567-89ef-0123-456789abcdef".to_string())),
        AuthAction::AskSecret
    ));
    match session.next(AuthEvent::Entered("secret".to_string())) {
        AuthAction::Write(c) => {
            assert_eq!(c.wpengine_user_id, "0123abcd-4567-89ef-0123-456789abcdef");
            assert_eq!(c.wpengine_password, "secret");
            assert_eq!(c.wpengine_api, "https://api.wpengineapi.com/v1");
        }
        _ => panic!("expected a write"),
    }
    assert_eq!(session.phase(), AuthPhase::Done);
    assert!(matches!(session.next(AuthEvent::Stored(None)), AuthAction::Proceed));
}

#[test]
fn ensure_with_malformed_record_prompts() {
    let (mut session, _) = AuthSession::ensure();
    let next = session.next(AuthEvent::Stored(Some(record("abc"))));
    assert!(matches!(next, AuthAction::AskUserId));
}

#[test]
fn auth_login_writes_entered_values_and_default_address() {
    let (mut session, first) = AuthSession::login();
    assert!(matches!(first, AuthAction::AskUserId));
    assert!(matches!(
        session.next(AuthEvent::Entered("abc-123-uuid".to_string())),
        AuthAction::AskSecret
    ));
    match session.next(AuthEvent::Entered("s3cret".to_string())) {
        AuthAction::Write(c) => {
            assert_eq!(c.wpengine_user_id, "abc-123-uuid");
            assert_eq!(c.wpengine_password, "s3cret");
            assert_eq!(c.wpengine_api, "https://api.wpengineapi.com/v1");
        }
        _ => panic!("expected a write"),
    }
}

#[test]
fn logout_erases() {
    let (mut session, first) = AuthSession::logout();
    assert!(matches!(first, AuthAction::Erase));
    assert!(matches!(session.next(AuthEvent::Stored(None)), AuthAction::Proceed));
}

#[test]
fn out_of_turn_event_repeats_pending_prompt() {
    let (mut session, _) = AuthSession::login();
    assert!(matches!(session.next(AuthEvent::Stored(None)), AuthAction::AskUserId));
}

#[test]
fn new_login_binds_default_address() {
    let c = Config::new_login("u".to_string(), "p".to_string());
    assert_eq!(c.wpengine_user_id, "u");
    assert_eq!(c.wpengine_password, "p");
    assert_eq!(c.wpengine_api, wpe::DEFAULT_API_BASE);
}
