//! The store, the token issuer and validator, the status taxonomy, and the
//! byte-generation helper.

use identity::registration::{
    registration_store_failure_step, RegistrationSession, RegistrationStep,
};
use identity::service::{login_store_failure_step, LoginSession, LoginStep};
use identity::status::{store_error_status, Status, StatusCode, StoreErrorKind};
use identity::store::IdentityStore;
use identity::token::{AccessToken, AuthType, ACCESS_TOKEN_LENGTH};
use identity::tools::generate_nbytes;
use identity::validator::verify_user_token;
use identity::wallet::put_token_helper;

#[test]
fn test_store_registration_roundtrip() {
    let mut store = IdentityStore::new();
    assert!(store.get_pake_registration(&"alice".to_string()).is_none());
    store.put_pake_registration("alice".to_string(), vec![1, 2, 3]);
    assert_eq!(store.get_pake_registration(&"alice".to_string()), Some(vec![1, 2, 3]));
    store.put_pake_registration("alice".to_string(), vec![4, 5]);
    assert_eq!(store.get_pake_registration(&"alice".to_string()), Some(vec![4, 5]));
    assert!(store.get_pake_registration(&"bob".to_string()).is_none());
}

#[test]
fn test_store_token_roundtrip() {
    let mut store = IdentityStore::new();
    assert!(store.get_token(&"alice".to_string(), &"dev1".to_string()).is_none());
    let record = AccessToken::new("alice".to_string(), "dev1".to_string(), AuthType::Wallet);
    let text = record.token.clone();
    store.put_token(record);
    let fetched = store.get_token(&"alice".to_string(), &"dev1".to_string()).unwrap();
    assert_eq!(fetched.token, text);
    assert_eq!(fetched.auth_type, AuthType::Wallet);
    assert!(fetched.valid);
    assert!(store.get_token(&"alice".to_string(), &"dev2".to_string()).is_none());
}

#[test]
fn test_access_token_new_policy() {
    let record = AccessToken::new("alice".to_string(), "dev1".to_string(), AuthType::Password);
    assert_eq!(record.token.len(), ACCESS_TOKEN_LENGTH);
    assert!(record.token.bytes().all(|b| b.is_ascii_alphanumeric()));
    assert_eq!(record.user_id, "alice");
    assert_eq!(record.device_id, "dev1");
    assert_eq!(record.auth_type, AuthType::Password);
    assert!(record.valid);
}

#[test]
fn test_put_token_helper_empty_ids_abort() {
    let mut store = IdentityStore::new();
    let err = put_token_helper(&mut store, AuthType::Wallet, &"".to_string(), &"dev1".to_string())
        .unwrap_err();
    assert_eq!(err.code, StatusCode::Aborted);
    assert_eq!(err.message, "user not found");
    let err = put_token_helper(&mut store, AuthType::Wallet, &"alice".to_string(), &"".to_string())
        .unwrap_err();
    assert_eq!(err.code, StatusCode::Aborted);
    assert_eq!(err.message, "user not found");
}

#[test]
fn test_put_token_helper_overwrites_previous_token() {
    let mut store = IdentityStore::new();
    let user = "alice".to_string();
    let device = "dev1".to_string();
    let first = put_token_helper(&mut store, AuthType::Password, &user, &device).unwrap();
    assert!(verify_user_token(&store, &user, &device, &first));
    let second = put_token_helper(&mut store, AuthType::Password, &user, &device).unwrap();
    assert_ne!(first, second);
    assert!(!verify_user_token(&store, &user, &device, &first));
    assert!(verify_user_token(&store, &user, &device, &second));
}

#[test]
fn test_verify_user_token_rejects_near_miss() {
    let mut store = IdentityStore::new();
    let user = "alice".to_string();
    let device = "dev1".to_string();
    let token = put_token_helper(&mut store, AuthType::Password, &user, &device).unwrap();
    assert!(verify_user_token(&store, &user, &device, &token));

    let mut tampered = token.clone().into_bytes();
    let last = tampered.len() - 1;
    tampered[last] = if tampered[last] == b'a' { b'b' } else { b'a' };
    let tampered = String::from_utf8(tampered).unwrap();
    assert!(!verify_user_token(&store, &user, &device, &tampered));

    let mut truncated = token.clone();
    truncated.pop();
    assert!(!verify_user_token(&store, &user, &device, &truncated));

    assert!(!verify_user_token(&store, &"bob".to_string(), &device, &token));
    assert!(!verify_user_token(&store, &user, &"dev2".to_string(), &token));
}

#[test]
fn test_store_error_status_mapping() {
    let missing = store_error_status(StoreErrorKind::MissingResource);
    assert_eq!(missing.code, StatusCode::FailedPrecondition);
    assert_eq!(missing.message, "internal error");

    let credentials = store_error_status(StoreErrorKind::InvalidCredentials);
    assert_eq!(credentials.code, StatusCode::FailedPrecondition);
    assert_eq!(credentials.message, "internal error");

    let transient = store_error_status(StoreErrorKind::Transient);
    assert_eq!(transient.code, StatusCode::Unavailable);
    assert_eq!(transient.message, "please retry");
}

#[test]
fn test_login_session_store_failure_statuses() {
    let mut session = LoginSession::new();
    match login_store_failure_step(&mut session, StoreErrorKind::Transient) {
        LoginStep::Respond(Err(st)) => {
            assert_eq!(st.code, StatusCode::Unavailable);
            assert_eq!(st.message, "please retry");
        }
        _ => panic!("expected a terminal rejection"),
    }

    let mut session = LoginSession::new();
    match login_store_failure_step(&mut session, StoreErrorKind::MissingResource) {
        LoginStep::Respond(Err(st)) => {
            assert_eq!(st.code, StatusCode::FailedPrecondition);
            assert_eq!(st.message, "internal error");
        }
        _ => panic!("expected a terminal rejection"),
    }

    let mut session = LoginSession::new();
    match login_store_failure_step(&mut session, StoreErrorKind::InvalidCredentials) {
        LoginStep::Respond(Err(st)) => {
            assert_eq!(st.code, StatusCode::FailedPrecondition);
            assert_eq!(st.message, "internal error");
        }
        _ => panic!("expected a terminal rejection"),
    }
}

#[test]
fn test_registration_session_store_failure_statuses() {
    let mut session = RegistrationSession::new();
    match registration_store_failure_step(&mut session, StoreErrorKind::Transient) {
        RegistrationStep::Respond(Err(st)) => {
            assert_eq!(st.code, StatusCode::Unavailable);
            assert_eq!(st.message, "please retry");
        }
        _ => panic!("expected a terminal rejection"),
    }

    let mut session = RegistrationSession::new();
    match registration_store_failure_step(&mut session, StoreErrorKind::MissingResource) {
        RegistrationStep::Respond(Err(st)) => {
            assert_eq!(st.code, StatusCode::FailedPrecondition);
            assert_eq!(st.message, "internal error");
        }
        _ => panic!("expected a terminal rejection"),
    }
}

#[test]
fn test_status_new_keeps_code_and_message() {
    let st = Status::new(StatusCode::Aborted, "user not found");
    assert_eq!(st.code, StatusCode::Aborted);
    assert_eq!(st.message, "user not found");
}

#[test]
fn test_generate_nbytes_default_fill() {
    let bytes = generate_nbytes(5, None);
    assert_eq!(bytes, vec![b'A'; 5]);
}

#[test]
fn test_generate_nbytes_explicit_fill() {
    let bytes = generate_nbytes(3, Some(0x7f));
    assert_eq!(bytes, vec![0x7f, 0x7f, 0x7f]);
    assert_eq!(generate_nbytes(0, Some(9)), Vec::<u8>::new());
}
